//! A seek-based backend over in-memory bytes, read through the verified
//! seek-then-read protocol.
//!
//! `CursorReader` models a stream-like handle: bytes plus a mutable
//! absolute position that must be re-established before each read, exactly
//! the capability pair ("seek to absolute position", "read up to N bytes,
//! returning the count actually read") that local files expose. `read_at`
//! satisfies a slice request over those primitives by driving a
//! [`crate::ReadPlan`], and `len_via_seek` answers the length query by
//! seeking to the logical end — which mutates the position as a side
//! effect, stated in its contract.

use vstd::prelude::*;

use crate::direct::direct_read_result;
use crate::error::ReadError;
use crate::plan::{PlanStep, ReadPlan};
use crate::{range_in_bounds, slice_of};

verus! {

/// How many bytes remain past position `pos` in a backend of these bytes.
pub open spec fn bytes_after(data: Seq<u8>, pos: u64) -> int {
    if pos < data.len() {
        data.len() - pos
    } else {
        0
    }
}

/// How many bytes a single "read up to `max`" at position `pos` delivers:
/// all that are asked for, or all that remain, whichever is fewer.
pub open spec fn take_count(data: Seq<u8>, pos: u64, max: usize) -> int {
    if max <= bytes_after(data, pos) {
        max as int
    } else {
        bytes_after(data, pos)
    }
}

/// What the seek-then-read strategy returns for a slice request against
/// these bytes: an in-range request yields the exact byte range; a request
/// that owes bytes and runs out of data first fails as a short read,
/// carrying how many bytes were delivered before the end; and a request
/// that owes none but names an offset past the end fails the bounds check
/// that the strategy makes through its length query.
pub open spec fn seek_read_result(data: Seq<u8>, offset: u64, length: usize) -> Result<
    Seq<u8>,
    ReadError,
> {
    if range_in_bounds(data.len() as int, offset, length) {
        Ok(slice_of(data, offset, length))
    } else if length == 0 {
        Err(
            ReadError::OutOfBounds {
                offset,
                length,
                backend_len: data.len() as u64,
            },
        )
    } else {
        Err(
            ReadError::ShortRead {
                offset,
                length,
                filled: bytes_after(data, offset) as usize,
            },
        )
    }
}

/// A stream-like backend handle: in-memory bytes behind a mutable absolute
/// position. The adapter exclusively owns it; nothing here serializes
/// concurrent calls, so a caller issuing overlapping requests against one
/// instance must serialize them itself.
pub struct CursorReader {
    data: Vec<u8>,
    pos: u64,
}

impl CursorReader {
    /// The backend's bytes.
    pub closed spec fn contents(self) -> Seq<u8> {
        self.data@
    }

    /// The current absolute position (it may lie past the end, as a file's
    /// cursor may).
    pub closed spec fn position(self) -> u64 {
        self.pos
    }

    /// Wrap owned bytes, with the position at the start.
    pub fn new(data: Vec<u8>) -> (r: Self)
        ensures
            r.contents() == data@,
            r.position() == 0,
    {
        CursorReader { data, pos: 0 }
    }

    /// Seek to an absolute position, which may lie past the end.
    pub fn seek_to(&mut self, offset: u64)
        ensures
            final(self).contents() == old(self).contents(),
            final(self).position() == offset,
    {
        self.pos = offset;
    }

    /// Read up to `max` bytes at the current position, advancing it by the
    /// count actually read. Delivers fewer than `max` bytes exactly when
    /// the data runs out first, and zero exactly when the position is at or
    /// past the end.
    pub fn read_some(&mut self, max: usize) -> (r: Vec<u8>)
        ensures
            final(self).contents() == old(self).contents(),
            r@.len() == take_count(old(self).contents(), old(self).position(), max),
            final(self).position() == old(self).position() + r@.len(),
            r@.len() > 0 ==> r@ == old(self).contents().subrange(
                old(self).position() as int,
                old(self).position() + r@.len(),
            ),
    {
        let n: u64 = self.data.len() as u64;
        if self.pos >= n {
            return Vec::new();
        }
        let avail: u64 = n - self.pos;
        let take: usize = if max as u64 <= avail {
            max
        } else {
            avail as usize
        };
        let start: usize = self.pos as usize;
        let mut out: Vec<u8> = Vec::new();
        let mut i: usize = 0;
        while i < take
            invariant
                i <= take,
                start == self.position(),
                self.position() + take <= self.contents().len(),
                self.contents().len() <= usize::MAX,
                out@ == self.contents().subrange(start as int, start + i),
            decreases take - i,
        {
            out.push(self.data[start + i]);
            i += 1;
            proof {
                assert(out@ =~= self.contents().subrange(start as int, start + i));
            }
        }
        self.pos = self.pos + take as u64;
        out
    }

    /// The length query of the seek-based strategy: seek to the logical end
    /// and report the resulting absolute position. The position is left at
    /// the end as a side effect, so callers must not rely on it persisting
    /// across calls.
    pub fn len_via_seek(&mut self) -> (r: u64)
        ensures
            final(self).contents() == old(self).contents(),
            r == old(self).contents().len(),
            final(self).position() == r,
    {
        self.pos = self.data.len() as u64;
        self.pos
    }

    /// Satisfy one slice request `(offset, length)` by seeking and then
    /// reading until the request is full.
    ///
    /// Succeeds if and only if the range lies within the backend, and then
    /// with exactly `length` bytes — never fewer. A request that owes
    /// bytes and runs out of data first fails as a short read; one that
    /// owes none checks its offset against the length query instead, and
    /// fails as out of bounds past the end. The position afterwards is a
    /// side effect of the strategy (one past the last byte delivered,
    /// wherever the data ran out, or the end after a length query) and
    /// carries no meaning between calls.
    pub fn read_at(&mut self, offset: u64, length: usize) -> (r: Result<Vec<u8>, ReadError>)
        ensures
            final(self).contents() == old(self).contents(),
            (match r {
                Ok(b) => Ok(b@),
                Err(e) => Err(e),
            }) == seek_read_result(old(self).contents(), offset, length),
            length == 0 ==> final(self).position() == old(self).contents().len(),
            length > 0 && r is Ok ==> final(self).position() == offset + length,
            length > 0 && r is Err ==> final(self).position() == (if offset as int
                >= old(self).contents().len() {
                offset as int
            } else {
                old(self).contents().len() as int
            }),
    {
        let backend_len: usize = self.data.len();
        proof {
            assert(old(self).contents().len() == backend_len);
        }
        let mut plan = ReadPlan::new(offset, length);
        let mut out: Vec<u8> = Vec::new();
        match plan.next_step() {
            PlanStep::QueryLen => {
                let n = self.len_via_seek();
                plan.on_len(n);
                match plan.next_step() {
                    PlanStep::Done => {
                        proof {
                            assert(Seq::<u8>::empty() =~= slice_of(
                                old(self).contents(),
                                offset,
                                length,
                            ));
                        }
                        return Ok(out);
                    },
                    PlanStep::Failed { error } => {
                        return Err(error);
                    },
                    _ => {
                        proof {
                            assert(false);
                        }
                        return Err(ReadError::Io { offset, length });
                    },
                }
            },
            PlanStep::Seek { offset: target } => {
                self.seek_to(target);
                plan.on_seeked();
            },
            _ => {
                proof {
                    assert(false);
                }
                return Err(ReadError::Io { offset, length });
            },
        }
        loop
            invariant
                length > 0,
                self.contents() == old(self).contents(),
                old(self).contents().len() <= usize::MAX,
                plan.wf(),
                plan.offset() == offset,
                plan.length() == length,
                plan.phase() is Filling || plan.phase() is Done,
                out@.len() == plan.filled(),
                self.position() == offset + plan.filled(),
                plan.filled() > 0 ==> offset + plan.filled() <= old(self).contents().len()
                    && out@ == old(self).contents().subrange(
                    offset as int,
                    offset + plan.filled(),
                ),
                plan.filled() == 0 ==> out@ == Seq::<u8>::empty(),
            decreases length - plan.filled(),
        {
            let step = plan.next_step();
            match step {
                PlanStep::Done => {
                    proof {
                        assert(out@ == slice_of(old(self).contents(), offset, length));
                    }
                    return Ok(out);
                },
                PlanStep::Fill { filled: _, remaining } => {
                    let ghost filled_before = plan.filled() as int;
                    let mut chunk = self.read_some(remaining);
                    let n = chunk.len();
                    plan.on_filled(n);
                    out.append(&mut chunk);
                    if n == 0 {
                        match plan.next_step() {
                            PlanStep::Failed { error } => {
                                proof {
                                    assert(offset + length > old(self).contents().len());
                                    if filled_before > 0 {
                                        assert(offset + filled_before == old(
                                            self,
                                        ).contents().len());
                                    } else {
                                        assert(offset as int >= old(self).contents().len());
                                    }
                                }
                                return Err(error);
                            },
                            _ => {
                                proof {
                                    assert(false);
                                }
                                return Err(ReadError::Io { offset, length });
                            },
                        }
                    }
                    proof {
                        assert(out@ =~= old(self).contents().subrange(
                            offset as int,
                            offset + plan.filled(),
                        ));
                    }
                },
                PlanStep::Seek { .. } => {
                    proof {
                        assert(false);
                    }
                    return Err(ReadError::Io { offset, length });
                },
                PlanStep::QueryLen => {
                    proof {
                        assert(false);
                    }
                    return Err(ReadError::Io { offset, length });
                },
                PlanStep::Failed { .. } => {
                    proof {
                        assert(false);
                    }
                    return Err(ReadError::Io { offset, length });
                },
            }
        }
    }
}

/// Bounds rejection for the seek-then-read strategy: every request whose
/// range extends past the backend's length fails — never a partially
/// filled success. A request that owes bytes fails as a short read,
/// reporting exactly the bytes that were available at the offset; one
/// that owes none fails the bounds check made through the length query.
pub proof fn lemma_seek_bounds_rejection(data: Seq<u8>, offset: u64, length: usize)
    requires
        offset + length > data.len(),
    ensures
        seek_read_result(data, offset, length) is Err,
        length > 0 ==> seek_read_result(data, offset, length) == Err::<Seq<u8>, ReadError>(
            ReadError::ShortRead {
                offset,
                length,
                filled: bytes_after(data, offset) as usize,
            },
        ) && bytes_after(data, offset) < length,
        length == 0 ==> seek_read_result(data, offset, length) == Err::<Seq<u8>, ReadError>(
            ReadError::OutOfBounds {
                offset,
                length,
                backend_len: data.len() as u64,
            },
        ),
{
}

/// Adapter equivalence: against identical bytes, the direct adapter and
/// the seek-then-read strategy agree on every request — the same exact
/// slice on success, and failure exactly together, the range check
/// deciding both the same way.
pub proof fn lemma_adapter_equivalence(data: Seq<u8>, offset: u64, length: usize)
    ensures
        range_in_bounds(data.len() as int, offset, length) ==> direct_read_result(
            data,
            offset,
            length,
        ) == seek_read_result(data, offset, length) && seek_read_result(data, offset, length)
            == Ok::<Seq<u8>, ReadError>(slice_of(data, offset, length)),
        !range_in_bounds(data.len() as int, offset, length) ==> direct_read_result(
            data,
            offset,
            length,
        ) is Err && seek_read_result(data, offset, length) is Err,
{
}

} // verus!
