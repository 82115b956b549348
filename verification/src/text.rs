//! Text that crosses the boundary to the engine.
//!
//! The engine takes NUL-terminated strings and hands back raw bytes. A string
//! can be handed over only if none of its bytes is NUL, and bytes become text
//! only if they are UTF-8.

use vstd::prelude::*;
use vstd::string::StringSliceAdditionalSpecFns;
use vstd::utf8::{decode_utf8, encode_utf8_decode_utf8, valid_utf8};
use crate::error::Error;

verus! {

/// Whether one of the bytes of `s` is NUL, so that `s` cannot be handed to the
/// engine.
pub fn has_nul(s: &str) -> (b: bool)
    ensures
        b == s.spec_bytes().contains(0u8),
{
    let bytes = s.as_bytes();
    let mut i: usize = 0;
    while i < bytes.len()
        invariant
            i <= bytes@.len(),
            bytes@ == s.spec_bytes(),
            forall|j: int| 0 <= j < i ==> bytes@[j] != 0u8,
        decreases bytes@.len() - i,
    {
        if bytes[i] == 0 {
            assert(bytes@[i as int] == 0u8);
            return true;
        }
        i += 1;
    }
    false
}

/// Checks a string on its way to the engine.
pub fn check_text(s: &str) -> (r: Result<(), Error>)
    ensures
        s.spec_bytes().contains(0u8) ==> r == Err::<(), Error>(Error::InvalidString),
        !s.spec_bytes().contains(0u8) ==> r == Ok::<(), Error>(()),
{
    if has_nul(s) {
        Err(Error::InvalidString)
    } else {
        Ok(())
    }
}

/// `core::str::from_utf8`: the bytes as a string slice if they are valid
/// UTF-8, and nothing otherwise. The slice has exactly the bytes that were
/// handed in.
#[verifier::external_body]
fn str_from_utf8(bytes: &[u8]) -> (r: Option<&str>)
    ensures
        r is Some <==> valid_utf8(bytes@),
        r matches Some(s) ==> s.spec_bytes() == bytes@,
{
    match core::str::from_utf8(bytes) {
        Ok(s) => Some(s),
        Err(_) => None,
    }
}

/// Turns bytes from the engine into text.
pub fn decode_text(bytes: &[u8]) -> (r: Result<String, Error>)
    ensures
        valid_utf8(bytes@) ==> (r matches Ok(s) && s@ == decode_utf8(bytes@)),
        !valid_utf8(bytes@) ==> r == Err::<String, Error>(Error::InvalidString),
{
    match str_from_utf8(bytes) {
        Some(s) => {
            proof {
                encode_utf8_decode_utf8(s@);
            }
            Ok(s.to_owned())
        },
        None => Err(Error::InvalidString),
    }
}

/// Whether `r` is what optional bytes from the engine come to as text:
/// nothing for no bytes, the decoded text for UTF-8, and a failure otherwise.
pub open spec fn is_decoding(r: Result<Option<String>, Error>, raw: Option<&[u8]>) -> bool {
    match raw {
        None => (r matches Ok(None)),
        Some(b) => if valid_utf8(b@) {
            (r matches Ok(Some(s)) && s@ == decode_utf8(b@))
        } else {
            (r matches Err(Error::InvalidString))
        },
    }
}

/// Turns optional bytes from the engine into optional text.
pub fn decode_optional(raw: Option<&[u8]>) -> (r: Result<Option<String>, Error>)
    ensures
        is_decoding(r, raw),
{
    match raw {
        None => Ok(None),
        Some(b) => match decode_text(b) {
            Ok(s) => Ok(Some(s)),
            Err(e) => Err(e),
        },
    }
}

} // verus!
