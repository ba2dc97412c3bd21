//! The direct random-access adapter: offset-addressed reads over a
//! contiguous in-memory byte region.
//!
//! This adapter never seeks: every read validates its bounds and copies the
//! requested range directly. Reads take `&self`, so no shared mutable
//! position exists and concurrent reads against one instance are always
//! safe. Its guarantees are strictly stronger than the seek-based
//! strategy's: `len` has no side effects and cannot fail.

use vstd::prelude::*;

use crate::error::ReadError;
use crate::{range_in_bounds, slice_of};

verus! {

/// What a direct read of `(offset, length)` against a backend holding
/// `data` returns: the exact byte range on success, and an out-of-bounds
/// error whenever the range extends past the backend's length.
pub open spec fn direct_read_result(data: Seq<u8>, offset: u64, length: usize) -> Result<
    Seq<u8>,
    ReadError,
> {
    if range_in_bounds(data.len() as int, offset, length) {
        Ok(slice_of(data, offset, length))
    } else {
        Err(
            ReadError::OutOfBounds {
                offset,
                length,
                backend_len: data.len() as u64,
            },
        )
    }
}

/// A backend with true random access: an owned, pinned in-memory buffer.
pub struct MemReader {
    data: Vec<u8>,
}

impl View for MemReader {
    type V = Seq<u8>;

    closed spec fn view(&self) -> Seq<u8> {
        self.data@
    }
}

impl MemReader {
    /// Wrap an owned buffer. The adapter exclusively owns the backend
    /// handle from here on.
    pub fn new(data: Vec<u8>) -> (r: Self)
        ensures
            r@ == data@,
    {
        MemReader { data }
    }

    /// Total addressable length. No side effects, and no possibility of
    /// failure for an already-valid handle; the value is fixed for the
    /// lifetime of the adapter, so repeated queries agree.
    pub fn len(&self) -> (r: u64)
        ensures
            r == self@.len(),
    {
        self.data.len() as u64
    }

    /// Read exactly `length` bytes starting at byte `offset`.
    ///
    /// Succeeds if and only if `offset + length` does not exceed the
    /// backend's length, and then returns the full range — never fewer
    /// bytes. Out-of-range requests fail with the bounds error carrying the
    /// request's context.
    pub fn read(&self, offset: u64, length: usize) -> (r: Result<Vec<u8>, ReadError>)
        ensures
            (match r {
                Ok(b) => Ok(b@),
                Err(e) => Err(e),
            }) == direct_read_result(self@, offset, length),
    {
        let n: u64 = self.data.len() as u64;
        if offset > n || length as u64 > n - offset {
            return Err(ReadError::OutOfBounds { offset, length, backend_len: n });
        }
        let start: usize = offset as usize;
        let mut out: Vec<u8> = Vec::new();
        let mut i: usize = 0;
        while i < length
            invariant
                i <= length,
                offset + length <= self@.len(),
                self@.len() <= usize::MAX,
                start == offset,
                out@ == self@.subrange(offset as int, offset + i),
            decreases length - i,
        {
            out.push(self.data[start + i]);
            i += 1;
            proof {
                assert(out@ =~= self@.subrange(offset as int, offset + i));
            }
        }
        Ok(out)
    }

    /// In-place form of `read`: fill all of `buf` with the bytes at
    /// `[offset, offset + buf.len())`, or fail without touching it.
    ///
    /// The destination keeps its length either way; success populates every
    /// byte of it — never fewer.
    pub fn read_into(&self, offset: u64, buf: &mut Vec<u8>) -> (r: Result<(), ReadError>)
        ensures
            final(buf)@.len() == old(buf)@.len(),
            (match r {
                Ok(()) => Ok(final(buf)@),
                Err(e) => Err(e),
            }) == direct_read_result(self@, offset, old(buf)@.len() as usize),
            r is Err ==> final(buf)@ == old(buf)@,
    {
        let length: usize = buf.len();
        let n: u64 = self.data.len() as u64;
        if offset > n || length as u64 > n - offset {
            return Err(ReadError::OutOfBounds { offset, length, backend_len: n });
        }
        let start: usize = offset as usize;
        buf.clear();
        let mut i: usize = 0;
        while i < length
            invariant
                i <= length,
                offset + length <= self@.len(),
                self@.len() <= usize::MAX,
                start == offset,
                buf@ == self@.subrange(offset as int, offset + i),
            decreases length - i,
        {
            buf.push(self.data[start + i]);
            i += 1;
            proof {
                assert(buf@ =~= self@.subrange(offset as int, offset + i));
            }
        }
        Ok(())
    }
}

/// Exactness: every read whose range lies within the backend returns
/// exactly `length` bytes, equal to the backend's true content at that
/// range.
pub proof fn lemma_direct_exactness(data: Seq<u8>, offset: u64, length: usize)
    requires
        range_in_bounds(data.len() as int, offset, length),
    ensures
        direct_read_result(data, offset, length) == Ok::<Seq<u8>, ReadError>(
            slice_of(data, offset, length),
        ),
        slice_of(data, offset, length).len() == length,
        forall|i: int|
            0 <= i < length ==> slice_of(data, offset, length)[i] == data[offset + i],
{
}

/// Bounds rejection: every read whose range extends past the backend's
/// length fails with the bounds error, never a partial success.
pub proof fn lemma_direct_bounds_rejection(data: Seq<u8>, offset: u64, length: usize)
    requires
        offset + length > data.len(),
    ensures
        direct_read_result(data, offset, length) == Err::<Seq<u8>, ReadError>(
            ReadError::OutOfBounds {
                offset,
                length,
                backend_len: data.len() as u64,
            },
        ),
{
}

/// Length stability for an immutable backend: the addressable length is a
/// pure function of the pinned contents, so repeated queries agree, and
/// every read within that length succeeds.
pub proof fn lemma_immutable_backend_stability(data: Seq<u8>, offset: u64, length: usize)
    requires
        offset + length <= data.len(),
    ensures
        direct_read_result(data, offset, length) is Ok,
{
}

} // verus!
