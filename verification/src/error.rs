//! The failure taxonomy shared by every adapter.

use vstd::prelude::*;

verus! {

/// Why a read or length query failed.
///
/// Every variant carries the `(offset, length)` context of the request so a
/// caller can decide between retry, failover, or abort. On any failure the
/// destination buffer's contents are garbage: success alone guarantees
/// all-or-nothing delivery.
#[derive(Clone, Copy, Debug, PartialEq, Eq, Structural)]
pub enum ReadError {
    /// The requested range extends past the backend's current length.
    OutOfBounds { offset: u64, length: usize, backend_len: u64 },
    /// The backend delivered fewer bytes than requested before reaching a
    /// natural end; `filled` bytes had been delivered when data ran out.
    /// Distinct from `OutOfBounds`: it can occur even when a length query
    /// indicated sufficient size, if the backend shrank concurrently.
    ShortRead { offset: u64, length: usize, filled: usize },
    /// The underlying device, filesystem, or transport operation failed.
    Io { offset: u64, length: usize },
    /// The suspended operation was cancelled before running to completion.
    Cancelled { offset: u64, length: usize },
}

impl ReadError {
    /// A short description of the failure kind.
    pub fn kind_name(&self) -> (r: &'static str)
        ensures
            r@ == match *self {
                ReadError::OutOfBounds { .. } => "out of bounds"@,
                ReadError::ShortRead { .. } => "short read"@,
                ReadError::Io { .. } => "i/o failure"@,
                ReadError::Cancelled { .. } => "cancelled"@,
            },
    {
        match self {
            ReadError::OutOfBounds { .. } => "out of bounds",
            ReadError::ShortRead { .. } => "short read",
            ReadError::Io { .. } => "i/o failure",
            ReadError::Cancelled { .. } => "cancelled",
        }
    }
}

} // verus!
