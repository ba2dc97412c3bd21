//! Offset-addressed slice reads over heterogeneous storage backends.
//!
//! The core contract is: read exactly `length` bytes starting at byte
//! `offset`, or fail — no partial fills are ever returned as success — and
//! query the total addressable length. Two adapters satisfy it: a direct
//! adapter over an in-memory buffer, and a seek-then-read strategy for
//! stream-like handles, whose per-read protocol is a verified state machine.

use vstd::prelude::*;

mod cursor;
mod direct;
mod error;
mod plan;

pub use cursor::CursorReader;
pub use cursor::bytes_after;
pub use cursor::lemma_adapter_equivalence;
pub use cursor::lemma_seek_bounds_rejection;
pub use cursor::seek_read_result;
pub use cursor::take_count;

pub use direct::MemReader;
pub use direct::direct_read_result;
pub use direct::lemma_direct_bounds_rejection;
pub use direct::lemma_direct_exactness;
pub use direct::lemma_immutable_backend_stability;
pub use error::ReadError;
pub use plan::Phase;
pub use plan::PlanStep;
pub use plan::ReadPlan;

verus! {

/// Whether the range `[offset, offset + length)` lies within a backend of
/// `data_len` bytes.
pub open spec fn range_in_bounds(data_len: int, offset: u64, length: usize) -> bool {
    offset + length <= data_len
}

/// The bytes of `data` at `[offset, offset + length)`.
pub open spec fn slice_of(data: Seq<u8>, offset: u64, length: usize) -> Seq<u8>
    recommends
        range_in_bounds(data.len() as int, offset, length),
{
    data.subrange(offset as int, offset + length)
}

} // verus!
