//! UTF-8 validation at the byte-source boundary.
//!
//! The mathematical reading of UTF-8 comes from `vstd::utf8`; this module
//! adds the longest-valid-prefix measure that a validation failure reports,
//! and the one trusted call into the standard library's validator.

use vstd::prelude::*;
use vstd::utf8::decode_utf8;
use vstd::utf8::valid_utf8;

verus! {

/// The length of the longest prefix of `bytes` that is valid UTF-8.
pub open spec fn valid_prefix_len(bytes: Seq<u8>) -> int
    decreases bytes.len(),
{
    if bytes.len() == 0 {
        0
    } else if valid_utf8(bytes) {
        bytes.len() as int
    } else {
        valid_prefix_len(bytes.subrange(0, bytes.len() - 1))
    }
}

/// The longest valid prefix is no longer than the bytes themselves.
pub proof fn lemma_valid_prefix_len_bounds(bytes: Seq<u8>)
    ensures
        0 <= valid_prefix_len(bytes) <= bytes.len(),
    decreases bytes.len(),
{
    if bytes.len() != 0 && !valid_utf8(bytes) {
        lemma_valid_prefix_len_bounds(bytes.subrange(0, bytes.len() - 1));
    }
}

/// Relies on core::str::from_utf8: it succeeds exactly on bytes that are
/// valid UTF-8 and returns the string reading of those bytes; on failure,
/// core::str::Utf8Error::valid_up_to gives the maximum index up to which
/// the bytes are valid UTF-8.
#[verifier::external_body]
pub(crate) fn try_str_from_utf8<'a>(bytes: &'a [u8]) -> (r: Result<&'a str, usize>)
    ensures
        r is Ok <==> valid_utf8(bytes@),
        r matches Ok(s) ==> s@ == decode_utf8(bytes@),
        r matches Err(i) ==> i as int == valid_prefix_len(bytes@),
{
    match core::str::from_utf8(bytes) {
        Ok(s) => Ok(s),
        Err(e) => Err(e.valid_up_to()),
    }
}

} // verus!
