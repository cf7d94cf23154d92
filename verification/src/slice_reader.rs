//! A byte source over an existing in-memory byte region.

use crate::encoding::lemma_valid_prefix_len_bounds;
use crate::encoding::try_str_from_utf8;
use crate::encoding::valid_prefix_len;
use crate::error::ReadError;
use vstd::prelude::*;
use vstd::slice::slice_subrange;
use vstd::slice::slice_to_vec;
use vstd::utf8::decode_utf8;
use vstd::utf8::valid_utf8;

verus! {

/// What taking the next `length` raw bytes out of a region holding `avail`
/// returns: the first `length` bytes, or end-of-input when fewer remain.
pub open spec fn slice_bytes_taken(avail: Seq<u8>, length: int) -> Result<Seq<u8>, ReadError> {
    if 0 <= length <= avail.len() {
        Ok(avail.subrange(0, length))
    } else {
        Err(ReadError::UnexpectedEof)
    }
}

/// What materializing the next `length` bytes of `avail` as a UTF-8 string
/// returns: their decoding, end-of-input when fewer remain, or an encoding
/// error carrying the length of their longest valid prefix.
pub open spec fn slice_str_taken(avail: Seq<u8>, length: int) -> Result<Seq<char>, ReadError> {
    if !(0 <= length <= avail.len()) {
        Err(ReadError::UnexpectedEof)
    } else if valid_utf8(avail.subrange(0, length)) {
        Ok(decode_utf8(avail.subrange(0, length)))
    } else {
        Err(
            ReadError::InvalidUtf8 {
                valid_up_to: valid_prefix_len(avail.subrange(0, length)) as usize,
            },
        )
    }
}

/// A byte source that lends borrowed views of an existing byte region. It
/// never allocates, and every view it returns lives as long as the region
/// itself, not merely as long as the call.
pub struct SliceReader<'storage> {
    slice: &'storage [u8],
}

impl<'storage> SliceReader<'storage> {
    /// The bytes not yet consumed.
    pub closed spec fn remaining(&self) -> Seq<u8> {
        self.slice@
    }

    /// A reader over the whole of `bytes`.
    pub fn new(bytes: &'storage [u8]) -> (r: SliceReader<'storage>)
        ensures
            r.remaining() == bytes@,
    {
        SliceReader { slice: bytes }
    }

    /// The error reported when a request outruns the remaining bytes.
    pub fn unexpected_eof() -> (e: ReadError)
        ensures
            e == ReadError::UnexpectedEof,
    {
        ReadError::UnexpectedEof
    }

    /// Split off the next `length` bytes as a view into the original region
    /// and advance past them; when fewer remain, fail without advancing.
    pub fn get_byte_slice(&mut self, length: usize) -> (r: Result<&'storage [u8], ReadError>)
        ensures
            match r {
                Ok(s) => slice_bytes_taken(old(self).remaining(), length as int) == Ok::<
                    Seq<u8>,
                    ReadError,
                >(s@) && final(self).remaining() == old(self).remaining().skip(length as int),
                Err(e) => slice_bytes_taken(old(self).remaining(), length as int) == Err::<
                    Seq<u8>,
                    ReadError,
                >(e) && final(self).remaining() == old(self).remaining(),
            },
    {
        if length > self.slice.len() {
            return Err(SliceReader::unexpected_eof());
        }
        let ghost rem0 = self.slice@;
        let s = slice_subrange(self.slice, 0, length);
        self.slice = slice_subrange(self.slice, length, self.slice.len());
        proof {
            assert(self.slice@ =~= rem0.skip(length as int));
        }
        Ok(s)
    }

    /// Materialize the next `length` bytes as a UTF-8 string view borrowed
    /// from the original region. The region advances past the bytes even
    /// when they fail validation; only a short region leaves it unchanged.
    pub fn forward_read_str(&mut self, length: usize) -> (r: Result<&'storage str, ReadError>)
        ensures
            match r {
                Ok(s) => slice_str_taken(old(self).remaining(), length as int) == Ok::<
                    Seq<char>,
                    ReadError,
                >(s@) && final(self).remaining() == old(self).remaining().skip(length as int),
                Err(e) => slice_str_taken(old(self).remaining(), length as int) == Err::<
                    Seq<char>,
                    ReadError,
                >(e) && if e is UnexpectedEof {
                    final(self).remaining() == old(self).remaining()
                } else {
                    final(self).remaining() == old(self).remaining().skip(length as int)
                },
            },
    {
        let bytes = match self.get_byte_slice(length) {
            Ok(b) => b,
            Err(e) => {
                return Err(e);
            },
        };
        match try_str_from_utf8(bytes) {
            Ok(s) => Ok(s),
            Err(valid_up_to) => {
                proof {
                    lemma_valid_prefix_len_bounds(bytes@);
                }
                Err(ReadError::InvalidUtf8 { valid_up_to })
            },
        }
    }

    /// Take the next `length` bytes as an owned buffer: a fresh copy of the
    /// borrowed view.
    pub fn get_byte_buffer(&mut self, length: usize) -> (r: Result<Vec<u8>, ReadError>)
        ensures
            match r {
                Ok(v) => slice_bytes_taken(old(self).remaining(), length as int) == Ok::<
                    Seq<u8>,
                    ReadError,
                >(v@) && final(self).remaining() == old(self).remaining().skip(length as int),
                Err(e) => slice_bytes_taken(old(self).remaining(), length as int) == Err::<
                    Seq<u8>,
                    ReadError,
                >(e) && final(self).remaining() == old(self).remaining(),
            },
    {
        match self.get_byte_slice(length) {
            Ok(s) => Ok(slice_to_vec(s)),
            Err(e) => Err(e),
        }
    }

    /// Pass on the next `length` bytes as a borrowed view.
    pub fn forward_read_bytes(&mut self, length: usize) -> (r: Result<&'storage [u8], ReadError>)
        ensures
            match r {
                Ok(s) => slice_bytes_taken(old(self).remaining(), length as int) == Ok::<
                    Seq<u8>,
                    ReadError,
                >(s@) && final(self).remaining() == old(self).remaining().skip(length as int),
                Err(e) => slice_bytes_taken(old(self).remaining(), length as int) == Err::<
                    Seq<u8>,
                    ReadError,
                >(e) && final(self).remaining() == old(self).remaining(),
            },
    {
        self.get_byte_slice(length)
    }

    /// Copy exactly the next `length` bytes onto the end of `out`; when
    /// fewer remain, fail without advancing or touching `out`.
    pub fn read_exact_into(&mut self, out: &mut Vec<u8>, length: usize) -> (r: Result<
        (),
        ReadError,
    >)
        ensures
            r is Ok <==> length <= old(self).remaining().len(),
            r is Ok ==> {
                &&& final(out)@ == old(out)@ + old(self).remaining().subrange(0, length as int)
                &&& final(self).remaining() == old(self).remaining().skip(length as int)
            },
            r matches Err(e) ==> {
                &&& e == ReadError::UnexpectedEof
                &&& final(out)@ == old(out)@
                &&& final(self).remaining() == old(self).remaining()
            },
    {
        let ghost out0 = out@;
        match self.get_byte_slice(length) {
            Ok(s) => {
                out.extend_from_slice(s);
                proof {
                    assert(out@ =~= out0 + s@);
                }
                Ok(())
            },
            Err(e) => Err(e),
        }
    }

    /// Copy up to `length` of the next bytes onto the end of `out` and
    /// report how many; a short region yields exactly what it still has.
    pub fn read_into(&mut self, out: &mut Vec<u8>, length: usize) -> (n: usize)
        ensures
            n == if length <= old(self).remaining().len() {
                length as int
            } else {
                old(self).remaining().len() as int
            },
            final(out)@ == old(out)@ + old(self).remaining().subrange(0, n as int),
            final(self).remaining() == old(self).remaining().skip(n as int),
    {
        let n: usize = if length <= self.slice.len() {
            length
        } else {
            self.slice.len()
        };
        let r = self.read_exact_into(out, n);
        proof {
            assert(r is Ok);
        }
        n
    }
}

} // verus!
