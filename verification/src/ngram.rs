//! N-gram language model file types.

use vstd::prelude::*;

verus! {

/// On-disk representation of an N-gram language model.
#[derive(Clone, Copy, Debug, PartialEq, Eq, Structural)]
pub enum NgramFileType {
    /// Not a recognised language model file.
    Invalid,
    /// Determine the representation from the file itself.
    Auto,
    /// ARPABO text.
    Arpa,
    /// Compressed binary.
    Bin,
}

impl NgramFileType {
    /// The integer code the recognition engine uses for this file type.
    pub open spec fn code(self) -> int {
        match self {
            NgramFileType::Invalid => -1,
            NgramFileType::Auto => 0,
            NgramFileType::Arpa => 1,
            NgramFileType::Bin => 2,
        }
    }

    /// The integer code the recognition engine uses for this file type.
    pub fn to_i32(self) -> (c: i32)
        ensures
            c == self.code(),
    {
        match self {
            NgramFileType::Invalid => -1,
            NgramFileType::Auto => 0,
            NgramFileType::Arpa => 1,
            NgramFileType::Bin => 2,
        }
    }

    /// Decodes an engine file-type code.
    pub fn from_i32(value: i32) -> (t: NgramFileType)
        requires
            -1 <= value <= 2,
        ensures
            t.code() == value,
    {
        if value == -1 {
            NgramFileType::Invalid
        } else if value == 0 {
            NgramFileType::Auto
        } else if value == 1 {
            NgramFileType::Arpa
        } else {
            NgramFileType::Bin
        }
    }
}

/// Whether a set of language models comes with one name for each model and,
/// where weights are given, one weight for each model.
pub fn set_counts_agree(models: usize, names: usize, weights: Option<usize>) -> (b: bool)
    ensures
        b == (names == models && (weights matches Some(w) ==> w == models)),
{
    names == models && match weights {
        Some(w) => w == models,
        None => true,
    }
}

} // verus!
