//! Tables for arithmetic on logarithms.

use vstd::prelude::*;

verus! {

/// The size and the dimensions of a log table.
#[derive(Clone, Copy, Debug, PartialEq, Eq, Structural)]
pub struct LogMathTableShape {
    /// table size * table width
    pub shape: i32,
    pub size: u32,
    pub width: u32,
    pub shift: u32,
}

} // verus!
