//! The per-read protocol of the seek-based strategy, as a state machine.
//!
//! A seek-based backend exposes "seek to an absolute position" and "read up
//! to N bytes at the current position". One slice request `(offset, length)`
//! is satisfied by seeking to `offset` and then reading until the request is
//! full; data running out first is a short read, which is a failure, not a
//! partial success. The machine here owns those decisions: a driver (an
//! event loop, possibly suspending on each primitive) performs whatever
//! `next_step` asks, feeds the outcome back, and never decides anything
//! itself. That keeps the protocol verified even when the primitives are
//! asynchronous and out of reach.

use vstd::prelude::*;

use crate::error::ReadError;

verus! {

/// Where one slice request stands.
#[derive(Clone, Copy, Debug, PartialEq, Eq, Structural)]
pub enum Phase {
    /// The backend's position has not been established yet.
    Seeking,
    /// The request owes no bytes, but whether its offset lies within the
    /// backend is still to be established by the length query.
    CheckingLen,
    /// The position is at `offset + filled`; more bytes are owed.
    Filling,
    /// All requested bytes were delivered.
    Done,
    /// The request failed; no byte delivered so far may be trusted.
    Failed { error: ReadError },
}

/// What the driver must do next for its request.
#[derive(Clone, Copy, Debug, PartialEq, Eq, Structural)]
pub enum PlanStep {
    /// Seek to this absolute byte position.
    Seek { offset: u64 },
    /// Query the backend's total addressable length (for a seek-based
    /// backend, by seeking to the logical end) and report it back.
    QueryLen,
    /// Read up to `remaining` more bytes at the current position;
    /// `filled` bytes of the request have been delivered already.
    Fill { filled: usize, remaining: usize },
    /// Stop: the request is complete.
    Done,
    /// Stop: the request failed with this error.
    Failed { error: ReadError },
}

/// The state of one `(offset, length)` slice request against a seek-based
/// backend.
pub struct ReadPlan {
    offset: u64,
    length: usize,
    filled: usize,
    phase: Phase,
}

impl ReadPlan {
    /// The requested absolute byte offset.
    pub closed spec fn offset(self) -> u64 {
        self.offset
    }

    /// The exact number of bytes the request owes.
    pub closed spec fn length(self) -> usize {
        self.length
    }

    /// How many bytes have been delivered so far.
    pub closed spec fn filled(self) -> usize {
        self.filled
    }

    /// Where the request stands.
    pub closed spec fn phase(self) -> Phase {
        self.phase
    }

    /// The machine's invariant: bytes delivered never exceed bytes owed,
    /// nothing is delivered before the seek, delivery is complete exactly
    /// in `Done`, `Filling` still owes at least one byte, and only a
    /// request that owes nothing checks its bounds by the length query.
    pub open spec fn wf(self) -> bool {
        &&& self.filled() <= self.length()
        &&& self.phase() is Seeking ==> self.filled() == 0 && self.length() > 0
        &&& self.phase() is CheckingLen ==> self.filled() == 0 && self.length() == 0
        &&& self.phase() is Filling ==> self.filled() < self.length()
        &&& self.phase() is Done ==> self.filled() == self.length()
    }

    /// The step a well-formed plan asks of its driver, as a function of the
    /// state.
    pub open spec fn spec_step(self) -> PlanStep {
        match self.phase() {
            Phase::Seeking => PlanStep::Seek { offset: self.offset() },
            Phase::CheckingLen => PlanStep::QueryLen,
            Phase::Filling => PlanStep::Fill {
                filled: self.filled(),
                remaining: (self.length() - self.filled()) as usize,
            },
            Phase::Done => PlanStep::Done,
            Phase::Failed { error } => PlanStep::Failed { error },
        }
    }

    /// Begin a slice request. A request that owes bytes starts with the
    /// seek; one that owes none still owes a bounds check on its offset,
    /// so it starts with the length query.
    pub fn new(offset: u64, length: usize) -> (r: Self)
        ensures
            r.wf(),
            r.offset() == offset,
            r.length() == length,
            r.filled() == 0,
            r.phase() == (if length == 0 {
                Phase::CheckingLen
            } else {
                Phase::Seeking
            }),
    {
        if length == 0 {
            ReadPlan { offset, length, filled: 0, phase: Phase::CheckingLen }
        } else {
            ReadPlan { offset, length, filled: 0, phase: Phase::Seeking }
        }
    }

    /// What the driver must do next.
    pub fn next_step(&self) -> (r: PlanStep)
        requires
            self.wf(),
        ensures
            r == self.spec_step(),
    {
        match self.phase {
            Phase::Seeking => PlanStep::Seek { offset: self.offset },
            Phase::CheckingLen => PlanStep::QueryLen,
            Phase::Filling => PlanStep::Fill {
                filled: self.filled,
                remaining: self.length - self.filled,
            },
            Phase::Done => PlanStep::Done,
            Phase::Failed { error } => PlanStep::Failed { error },
        }
    }

    /// The seek completed: the backend's position now equals `offset`, and
    /// the owed bytes can be read.
    pub fn on_seeked(&mut self)
        requires
            old(self).wf(),
            old(self).phase() == Phase::Seeking,
        ensures
            final(self).wf(),
            final(self).offset() == old(self).offset(),
            final(self).length() == old(self).length(),
            final(self).filled() == 0,
            final(self).phase() == Phase::Filling,
    {
        self.phase = Phase::Filling;
    }

    /// The length query answered: the backend currently addresses
    /// `backend_len` bytes. The zero-length request completes — with an
    /// empty result — exactly when its offset lies within the backend, and
    /// is rejected as out of bounds otherwise.
    pub fn on_len(&mut self, backend_len: u64)
        requires
            old(self).wf(),
            old(self).phase() == Phase::CheckingLen,
        ensures
            final(self).wf(),
            final(self).offset() == old(self).offset(),
            final(self).length() == old(self).length(),
            final(self).filled() == 0,
            final(self).phase() == (if old(self).offset() <= backend_len {
                Phase::Done
            } else {
                Phase::Failed {
                    error: ReadError::OutOfBounds {
                        offset: old(self).offset(),
                        length: old(self).length(),
                        backend_len,
                    },
                }
            }),
    {
        if self.offset <= backend_len {
            self.phase = Phase::Done;
        } else {
            self.phase = Phase::Failed {
                error: ReadError::OutOfBounds {
                    offset: self.offset,
                    length: self.length,
                    backend_len,
                },
            };
        }
    }

    /// The backend delivered `n` more bytes (`n == 0` meaning it reached
    /// its natural end). Zero bytes while more are owed is a short read and
    /// fails the request; otherwise the request advances and completes
    /// exactly when all owed bytes are in.
    pub fn on_filled(&mut self, n: usize)
        requires
            old(self).wf(),
            old(self).phase() == Phase::Filling,
            n <= old(self).length() - old(self).filled(),
        ensures
            final(self).wf(),
            final(self).offset() == old(self).offset(),
            final(self).length() == old(self).length(),
            n == 0 ==> final(self).filled() == old(self).filled()
                && final(self).phase() == (Phase::Failed {
                    error: ReadError::ShortRead {
                        offset: old(self).offset(),
                        length: old(self).length(),
                        filled: old(self).filled(),
                    },
                }),
            n > 0 ==> final(self).filled() == old(self).filled() + n
                && final(self).phase() == (if old(self).filled() + n
                    == old(self).length() {
                    Phase::Done
                } else {
                    Phase::Filling
                }),
    {
        if n == 0 {
            self.phase = Phase::Failed {
                error: ReadError::ShortRead {
                    offset: self.offset,
                    length: self.length,
                    filled: self.filled,
                },
            };
        } else {
            self.filled = self.filled + n;
            if self.filled == self.length {
                self.phase = Phase::Done;
            }
        }
    }

    /// The pending primitive failed in the backend (device, filesystem or
    /// transport fault). The fault is surfaced with the request's context;
    /// nothing is retried.
    pub fn on_io_error(&mut self)
        requires
            old(self).wf(),
            old(self).phase() == Phase::Seeking || old(self).phase() == Phase::Filling
                || old(self).phase() == Phase::CheckingLen,
        ensures
            final(self).wf(),
            final(self).offset() == old(self).offset(),
            final(self).length() == old(self).length(),
            final(self).filled() == old(self).filled(),
            final(self).phase() == (Phase::Failed {
                error: ReadError::Io {
                    offset: old(self).offset(),
                    length: old(self).length(),
                },
            }),
    {
        self.phase = Phase::Failed {
            error: ReadError::Io { offset: self.offset, length: self.length },
        };
    }

    /// The pending primitive was cancelled by the driver's scheduler before
    /// it ran to completion. The destination's contents are garbage; the
    /// request can only be reissued from scratch.
    pub fn on_cancelled(&mut self)
        requires
            old(self).wf(),
            old(self).phase() == Phase::Seeking || old(self).phase() == Phase::Filling
                || old(self).phase() == Phase::CheckingLen,
        ensures
            final(self).wf(),
            final(self).offset() == old(self).offset(),
            final(self).length() == old(self).length(),
            final(self).filled() == old(self).filled(),
            final(self).phase() == (Phase::Failed {
                error: ReadError::Cancelled {
                    offset: old(self).offset(),
                    length: old(self).length(),
                },
            }),
    {
        self.phase = Phase::Failed {
            error: ReadError::Cancelled { offset: self.offset, length: self.length },
        };
    }
}

} // verus!
