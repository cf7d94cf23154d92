//! Properties tying the two byte sources together.

use crate::error::ReadError;
use crate::io_reader::stream_bytes_taken;
use crate::io_reader::stream_str_taken;
use crate::slice_reader::slice_bytes_taken;
use crate::slice_reader::slice_str_taken;
use vstd::prelude::*;
use vstd::utf8::encode_utf8;

verus! {

/// Law: the UTF-8 encoding of any character sequence, materialized as a
/// string of its full byte length, decodes back to exactly that sequence —
/// from a slice source and from a stream source alike.
pub proof fn lemma_string_round_trip(chars: Seq<char>)
    ensures
        slice_str_taken(encode_utf8(chars), encode_utf8(chars).len() as int) == Ok::<
            Seq<char>,
            ReadError,
        >(chars),
        stream_str_taken(encode_utf8(chars), encode_utf8(chars).len() as int) == Ok::<
            Seq<char>,
            ReadError,
        >(chars),
{
    broadcast use vstd::utf8::encode_utf8_valid_utf8;
    broadcast use vstd::utf8::encode_utf8_decode_utf8;

    let bytes = encode_utf8(chars);
    assert(bytes.subrange(0, bytes.len() as int) =~= bytes);
}

/// Law: for any `length` within the available bytes, taking an owned buffer
/// from a stream source yields byte-for-byte the view a slice source over
/// the same bytes lends for the same request: both take exactly the first
/// `length` bytes.
pub proof fn lemma_owned_buffer_matches_borrowed_view(avail: Seq<u8>, length: int)
    requires
        0 <= length <= avail.len(),
    ensures
        stream_bytes_taken(avail, length) == slice_bytes_taken(avail, length),
        stream_bytes_taken(avail, length) == Ok::<Seq<u8>, ReadError>(
            avail.subrange(0, length),
        ),
{
}

/// Law: string materialization answers every request identically on the two
/// sources; the slice source and the stream source agree error for error.
pub proof fn lemma_str_materialization_agrees(avail: Seq<u8>, length: int)
    ensures
        slice_str_taken(avail, length) == stream_str_taken(avail, length),
{
}

} // verus!
