//! A byte source over a sequential streaming resource.

use crate::encoding::lemma_valid_prefix_len_bounds;
use crate::encoding::try_str_from_utf8;
use crate::encoding::valid_prefix_len;
use crate::error::ReadError;
use crate::stream::ByteStream;
use vstd::prelude::*;
use vstd::slice::slice_to_vec;
use vstd::utf8::decode_utf8;
use vstd::utf8::valid_utf8;

verus! {

/// What taking the next `length` raw bytes from a resource that will yield
/// `avail` returns, when the resource itself does not fail: the first
/// `length` bytes, or end-of-input when the resource holds fewer.
pub open spec fn stream_bytes_taken(avail: Seq<u8>, length: int) -> Result<Seq<u8>, ReadError> {
    if 0 <= length <= avail.len() {
        Ok(avail.subrange(0, length))
    } else {
        Err(ReadError::UnexpectedEof)
    }
}

/// What materializing the next `length` bytes of such a resource as a UTF-8
/// string returns: their decoding, end-of-input when the resource holds
/// fewer, or an encoding error carrying the length of their longest valid
/// prefix.
pub open spec fn stream_str_taken(avail: Seq<u8>, length: int) -> Result<Seq<char>, ReadError> {
    if !(0 <= length <= avail.len()) {
        Err(ReadError::UnexpectedEof)
    } else if valid_utf8(avail.subrange(0, length)) {
        Ok(decode_utf8(avail.subrange(0, length)))
    } else {
        Err(
            ReadError::InvalidUtf8 {
                valid_up_to: valid_prefix_len(avail.subrange(0, length)) as usize,
            },
        )
    }
}

/// Relies on Vec::capacity: the reserved storage is never smaller than the
/// vector's length.
#[verifier::external_body]
fn vec_capacity(v: &Vec<u8>) -> (r: usize)
    ensures
        r >= v@.len(),
{
    v.capacity()
}

/// A byte source over a streaming resource. It keeps one scratch buffer,
/// reused across calls: a fill grows the buffer's capacity when the request
/// needs more but never shrinks it, and the requested bytes become
/// observable in the buffer only once all of them have been read — a failed
/// fill never exposes partially read bytes.
pub struct IoReader<R> {
    reader: R,
    temp_buffer: Vec<u8>,
}

impl<R: ByteStream> IoReader<R> {
    /// The bytes the underlying resource will still yield.
    pub closed spec fn remaining(&self) -> Seq<u8> {
        self.reader.remaining()
    }

    /// The scratch buffer's observable contents.
    pub closed spec fn scratch(&self) -> Seq<u8> {
        self.temp_buffer@
    }

    /// A reader over the resource `r`, with an empty scratch buffer.
    pub fn new(r: R) -> (reader: IoReader<R>)
        ensures
            reader.remaining() == r.remaining(),
            reader.scratch().len() == 0,
    {
        IoReader { reader: r, temp_buffer: Vec::new() }
    }

    /// Stage exactly the next `length` bytes in the scratch buffer, which
    /// must be empty, as every materialization leaves it. Capacity is grown
    /// when the request needs more and reused otherwise; the bytes become
    /// observable only when the whole read has succeeded, and a failed fill
    /// leaves the buffer's observable state unchanged — no partially read
    /// bytes ever leak.
    pub fn fill_buffer(&mut self, length: usize) -> (r: Result<(), ReadError>)
        requires
            old(self).scratch().len() == 0,
        ensures
            r is Ok ==> {
                &&& length <= old(self).remaining().len()
                &&& final(self).scratch() == old(self).remaining().subrange(0, length as int)
                &&& final(self).remaining() == old(self).remaining().skip(length as int)
            },
            length > old(self).remaining().len() ==> (r matches Err(e) && e
                == ReadError::UnexpectedEof),
            r matches Err(e) ==> {
                &&& final(self).scratch() == old(self).scratch()
                &&& !(e is InvalidUtf8)
                &&& (e is UnexpectedEof ==> length > old(self).remaining().len())
            },
    {
        let ghost rem0 = self.reader.remaining();
        self.temp_buffer.reserve(length);
        match self.reader.read_exact_append(&mut self.temp_buffer, length) {
            Ok(()) => {
                proof {
                    assert(self.temp_buffer@ =~= rem0.subrange(0, length as int));
                }
                Ok(())
            },
            Err(e) => Err(e),
        }
    }

    /// Materialize whatever the scratch buffer holds as an owned UTF-8
    /// string: the decoding of the staged bytes, or an encoding error
    /// carrying the length of their longest valid prefix. The scratch
    /// buffer is left empty either way, its capacity kept.
    pub fn scratch_to_str(&mut self) -> (r: Result<String, ReadError>)
        ensures
            r is Ok <==> valid_utf8(old(self).scratch()),
            r matches Ok(s) ==> s@ == decode_utf8(old(self).scratch()),
            r matches Err(e) ==> e == (ReadError::InvalidUtf8 {
                valid_up_to: valid_prefix_len(old(self).scratch()) as usize,
            }),
            final(self).scratch().len() == 0,
            final(self).remaining() == old(self).remaining(),
    {
        let r = match try_str_from_utf8(self.temp_buffer.as_slice()) {
            Ok(s) => Ok(s.to_owned()),
            Err(valid_up_to) => {
                proof {
                    lemma_valid_prefix_len_bounds(self.temp_buffer@);
                }
                Err(ReadError::InvalidUtf8 { valid_up_to })
            },
        };
        self.temp_buffer.clear();
        r
    }

    /// Materialize the next `length` bytes as an owned UTF-8 string. The
    /// scratch buffer, empty on entry, is left empty afterwards, its
    /// capacity kept for the next fill. End-of-input is reported exactly
    /// when the resource holds fewer than `length` bytes; once the bytes
    /// are staged, an invalid encoding is reported as such.
    pub fn forward_read_str(&mut self, length: usize) -> (r: Result<String, ReadError>)
        requires
            old(self).scratch().len() == 0,
        ensures
            r matches Ok(s) ==> {
                &&& stream_str_taken(old(self).remaining(), length as int) == Ok::<
                    Seq<char>,
                    ReadError,
                >(s@)
                &&& final(self).remaining() == old(self).remaining().skip(length as int)
                &&& final(self).scratch().len() == 0
            },
            length > old(self).remaining().len() ==> (r matches Err(e) && e
                == ReadError::UnexpectedEof),
            r matches Err(e) ==> {
                &&& final(self).scratch().len() == 0
                &&& (e is UnexpectedEof ==> length > old(self).remaining().len())
                &&& (e is InvalidUtf8 ==> {
                    &&& stream_str_taken(old(self).remaining(), length as int) == Err::<
                        Seq<char>,
                        ReadError,
                    >(e)
                    &&& final(self).remaining() == old(self).remaining().skip(length as int)
                })
            },
    {
        match self.fill_buffer(length) {
            Ok(()) => (),
            Err(e) => {
                return Err(e);
            },
        }
        self.scratch_to_str()
    }

    /// Take the next `length` bytes as an owned buffer: the filled scratch
    /// buffer itself is handed over, and a fresh empty one takes its place.
    /// End-of-input is reported exactly when the resource holds fewer than
    /// `length` bytes.
    pub fn get_byte_buffer(&mut self, length: usize) -> (r: Result<Vec<u8>, ReadError>)
        requires
            old(self).scratch().len() == 0,
        ensures
            r matches Ok(v) ==> {
                &&& stream_bytes_taken(old(self).remaining(), length as int) == Ok::<
                    Seq<u8>,
                    ReadError,
                >(v@)
                &&& final(self).remaining() == old(self).remaining().skip(length as int)
                &&& final(self).scratch().len() == 0
            },
            length > old(self).remaining().len() ==> (r matches Err(e) && e
                == ReadError::UnexpectedEof),
            r matches Err(e) ==> {
                &&& final(self).scratch().len() == 0
                &&& !(e is InvalidUtf8)
                &&& (e is UnexpectedEof ==> length > old(self).remaining().len())
            },
    {
        match self.fill_buffer(length) {
            Ok(()) => (),
            Err(e) => {
                return Err(e);
            },
        }
        let mut out: Vec<u8> = Vec::new();
        core::mem::swap(&mut out, &mut self.temp_buffer);
        Ok(out)
    }

    /// Pass on the next `length` bytes as a fresh copy of the transient
    /// scratch view; the scratch buffer keeps its capacity and is left
    /// empty. End-of-input is reported exactly when the resource holds
    /// fewer than `length` bytes.
    pub fn forward_read_bytes(&mut self, length: usize) -> (r: Result<Vec<u8>, ReadError>)
        requires
            old(self).scratch().len() == 0,
        ensures
            r matches Ok(v) ==> {
                &&& stream_bytes_taken(old(self).remaining(), length as int) == Ok::<
                    Seq<u8>,
                    ReadError,
                >(v@)
                &&& final(self).remaining() == old(self).remaining().skip(length as int)
                &&& final(self).scratch().len() == 0
            },
            length > old(self).remaining().len() ==> (r matches Err(e) && e
                == ReadError::UnexpectedEof),
            r matches Err(e) ==> {
                &&& final(self).scratch().len() == 0
                &&& !(e is InvalidUtf8)
                &&& (e is UnexpectedEof ==> length > old(self).remaining().len())
            },
    {
        match self.fill_buffer(length) {
            Ok(()) => (),
            Err(e) => {
                return Err(e);
            },
        }
        let out = slice_to_vec(self.temp_buffer.as_slice());
        self.temp_buffer.clear();
        Ok(out)
    }

    /// Read up to `length` bytes straight from the resource onto the end of
    /// `out`, bypassing the scratch buffer, and report how many.
    pub fn read_into(&mut self, out: &mut Vec<u8>, length: usize) -> (r: Result<usize, ReadError>)
        ensures
            r matches Ok(n) ==> {
                &&& n <= length
                &&& n <= old(self).remaining().len()
                &&& final(out)@ == old(out)@ + old(self).remaining().subrange(0, n as int)
                &&& final(self).remaining() == old(self).remaining().skip(n as int)
                &&& final(self).scratch() == old(self).scratch()
            },
            r matches Err(e) ==> {
                &&& final(out)@ == old(out)@
                &&& !(e is InvalidUtf8)
                &&& final(self).scratch() == old(self).scratch()
            },
    {
        self.reader.read_some_append(out, length)
    }

    /// Read exactly `length` bytes straight from the resource onto the end
    /// of `out`, bypassing the scratch buffer.
    pub fn read_exact_into(&mut self, out: &mut Vec<u8>, length: usize) -> (r: Result<
        (),
        ReadError,
    >)
        ensures
            r is Ok ==> {
                &&& length <= old(self).remaining().len()
                &&& final(out)@ == old(out)@ + old(self).remaining().subrange(0, length as int)
                &&& final(self).remaining() == old(self).remaining().skip(length as int)
                &&& final(self).scratch() == old(self).scratch()
            },
            length > old(self).remaining().len() ==> (r matches Err(e) && e
                == ReadError::UnexpectedEof),
            r matches Err(e) ==> {
                &&& final(out)@ == old(out)@
                &&& !(e is InvalidUtf8)
                &&& (e is UnexpectedEof ==> length > old(self).remaining().len())
                &&& final(self).scratch() == old(self).scratch()
            },
    {
        self.reader.read_exact_append(out, length)
    }

    /// The scratch buffer's current contents, as a transient view.
    pub fn scratch_slice(&self) -> (r: &[u8])
        ensures
            r@ == self.scratch(),
    {
        self.temp_buffer.as_slice()
    }

    /// The scratch buffer's reserved storage, never smaller than its
    /// contents; fills grow it on demand and otherwise reuse it.
    pub fn scratch_capacity(&self) -> (r: usize)
        ensures
            r >= self.scratch().len(),
    {
        vec_capacity(&self.temp_buffer)
    }
}

} // verus!
