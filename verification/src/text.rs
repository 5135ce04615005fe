//! Validation of text arguments bound for the engine, which takes
//! null-terminated strings: text with an embedded null byte has no
//! representation there and must be rejected before any engine call.

use vstd::prelude::*;
use vstd::string::StringSliceAdditionalSpecFns;
use crate::error::Error;

verus! {

/// A byte sequence is representable as an engine string iff no byte of
/// it is null.
pub open spec fn text_valid(bytes: Seq<u8>) -> bool {
    forall|i: int| 0 <= i < bytes.len() ==> bytes[i] != 0
}

/// Whether the engine's encoding can carry this text.
pub fn text_accepted(s: &str) -> (ok: bool)
    ensures
        ok == text_valid(s.spec_bytes()),
{
    let bytes = s.as_bytes();
    let n = bytes.len();
    let mut i: usize = 0;
    while i < n
        invariant
            n == bytes@.len(),
            bytes@ == s.spec_bytes(),
            i <= n,
            forall|j: int| 0 <= j < i ==> bytes@[j] != 0,
        decreases n - i,
    {
        if bytes[i] == 0 {
            return false;
        }
        i = i + 1;
    }
    true
}

/// Reject text the engine's encoding cannot carry, exactly as a session
/// operation does before delegating to the engine: `Ok` iff the text has
/// no embedded null byte, `InvalidArgument` otherwise.
pub fn check_text(s: &str) -> (r: Result<(), Error>)
    ensures
        r is Ok <==> text_valid(s.spec_bytes()),
        r is Err ==> r == Err::<(), Error>(Error::InvalidArgument),
{
    if text_accepted(s) {
        Ok(())
    } else {
        Err(Error::InvalidArgument)
    }
}

} // verus!
