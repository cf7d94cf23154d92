//! The sequential resource a stream source draws its bytes from.

use crate::error::ReadError;
use vstd::prelude::*;
use vstd::slice::slice_subrange;
use vstd::slice::slice_to_vec;

verus! {

/// A sequential byte-producing resource: the streaming counterpart of an
/// in-memory byte region. `remaining` is the sequence of bytes the resource
/// will still yield. A resource may fail for reasons of its own, but it
/// never reports an encoding error, it leaves `out` untouched on failure,
/// it reports end-of-input exactly when asked for more bytes than it holds,
/// and when it succeeds it appends exactly the bytes it promised, in order.
pub trait ByteStream {
    /// The bytes this resource will still yield, in order.
    spec fn remaining(&self) -> Seq<u8>;

    /// Append up to `length` of the next bytes to `out`, reporting how many.
    fn read_some_append(&mut self, out: &mut Vec<u8>, length: usize) -> (r: Result<
        usize,
        ReadError,
    >)
        ensures
            r matches Ok(n) ==> {
                &&& n <= length
                &&& n <= old(self).remaining().len()
                &&& final(out)@ == old(out)@ + old(self).remaining().subrange(0, n as int)
                &&& final(self).remaining() == old(self).remaining().skip(n as int)
            },
            r matches Err(e) ==> final(out)@ == old(out)@ && !(e is InvalidUtf8),
    ;

    /// Append exactly the next `length` bytes to `out`, or fail and leave
    /// `out` untouched; a request for more bytes than remain fails with
    /// end-of-input, and end-of-input is reported only for such a request.
    fn read_exact_append(&mut self, out: &mut Vec<u8>, length: usize) -> (r: Result<
        (),
        ReadError,
    >)
        ensures
            r is Ok ==> {
                &&& length <= old(self).remaining().len()
                &&& final(out)@ == old(out)@ + old(self).remaining().subrange(0, length as int)
                &&& final(self).remaining() == old(self).remaining().skip(length as int)
            },
            length > old(self).remaining().len() ==> (r matches Err(e) && e
                == ReadError::UnexpectedEof),
            r matches Err(e) ==> {
                &&& final(out)@ == old(out)@
                &&& !(e is InvalidUtf8)
                &&& (e is UnexpectedEof ==> length > old(self).remaining().len())
            },
    ;
}

/// An in-memory streaming resource: it yields the bytes of a vector front
/// to back, then reports end of stream.
pub struct VecStream {
    data: Vec<u8>,
}

impl VecStream {
    /// The stream that will yield exactly `data`.
    pub fn new(data: Vec<u8>) -> (r: VecStream)
        ensures
            r.remaining() == data@,
    {
        VecStream { data }
    }
}

impl ByteStream for VecStream {
    closed spec fn remaining(&self) -> Seq<u8> {
        self.data@
    }

    fn read_some_append(&mut self, out: &mut Vec<u8>, length: usize) -> (r: Result<
        usize,
        ReadError,
    >) {
        let n: usize = if length <= self.data.len() {
            length
        } else {
            self.data.len()
        };
        let ghost out0 = out@;
        let ghost data0 = self.data@;
        let taken = slice_subrange(self.data.as_slice(), 0, n);
        out.extend_from_slice(taken);
        let rest = slice_to_vec(slice_subrange(self.data.as_slice(), n, self.data.len()));
        self.data = rest;
        proof {
            assert(out@ =~= out0 + data0.subrange(0, n as int));
            assert(self.data@ =~= data0.skip(n as int));
        }
        Ok(n)
    }

    fn read_exact_append(&mut self, out: &mut Vec<u8>, length: usize) -> (r: Result<
        (),
        ReadError,
    >) {
        if length > self.data.len() {
            return Err(ReadError::UnexpectedEof);
        }
        let ghost out0 = out@;
        let ghost data0 = self.data@;
        let taken = slice_subrange(self.data.as_slice(), 0, length);
        out.extend_from_slice(taken);
        let rest = slice_to_vec(slice_subrange(self.data.as_slice(), length, self.data.len()));
        self.data = rest;
        proof {
            assert(out@ =~= out0 + data0.subrange(0, length as int));
            assert(self.data@ =~= data0.skip(length as int));
        }
        Ok(())
    }
}

} // verus!
