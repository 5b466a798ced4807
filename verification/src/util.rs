//! Text as the client library takes it: bytes that a zero byte ends.

use vstd::prelude::*;
use vstd::string::{StrSliceExecFns, StringSliceAdditionalSpecFns};

verus! {

/// Whether a run of bytes can be handed over as zero-terminated text: it
/// holds no zero byte itself.
pub open spec fn is_c_text(bytes: Seq<u8>) -> bool {
    forall|i: int| 0 <= i < bytes.len() ==> bytes[i] != 0
}

/// Whether a string can be handed over as zero-terminated text.
pub fn is_text(s: &str) -> (ok: bool)
    ensures
        ok == is_c_text(s.spec_bytes()),
{
    let bytes = s.as_bytes();
    let mut i: usize = 0;
    while i < bytes.len()
        invariant
            bytes@ == s.spec_bytes(),
            0 <= i <= bytes.len(),
            forall|j: int| 0 <= j < i ==> bytes@[j] != 0,
        decreases bytes.len() - i,
    {
        if bytes[i] == 0 {
            return false;
        }
        i += 1;
    }
    true
}

/// The bytes of a string, where it can be handed over as zero-terminated
/// text.
pub fn str_to_c_char(s: &str) -> (r: Option<Vec<u8>>)
    ensures
        match r {
            Some(bytes) => is_c_text(s.spec_bytes()) && bytes@ == s.spec_bytes(),
            None => !is_c_text(s.spec_bytes()),
        },
{
    if is_text(s) {
        Some(s.as_bytes_vec())
    } else {
        None
    }
}

} // verus!
