//! Turning decrypted bytes back into text, against vstd's model of UTF-8.

use vstd::prelude::*;
use vstd::utf8::{encode_utf8, valid_utf8};

verus! {

/// Relies on String::from_utf8: it succeeds exactly on valid UTF-8 input and
/// returns the string whose encoding is that input, matching vstd's model of
/// a string's bytes (`encode_utf8` of its characters).
#[verifier::external_body]
pub(crate) fn utf8_to_string(bytes: Vec<u8>) -> (r: Option<String>)
    ensures
        r matches Some(s) ==> encode_utf8(s@) == bytes@,
        valid_utf8(bytes@) ==> r is Some,
{
    String::from_utf8(bytes).ok()
}

} // verus!
