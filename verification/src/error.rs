//! The error type shared by every fallible operation of the reader.

use vstd::prelude::*;

verus! {

/// Why a read of the underlying byte buffer failed.
///
/// Every failure is immediate and final: nothing inside the reader
/// retries, recovers or patches over malformed input.
#[derive(Debug, PartialEq, Eq, Structural, Clone, Copy)]
pub enum RiffError {
    /// A tag read while walking the buffer is not all ASCII; the value
    /// is the position in the buffer where that tag starts.
    EncounteredInvalidIDNotASCII(usize),
    /// The caller handed the tag constructor bytes that are not all ASCII.
    InvalidIDNotASCII,
    /// The buffer is exhausted at a chunk boundary: the expected end of
    /// sequential iteration and of a lookup, not a corruption signal.
    EndOfData,
    /// A chunk declares more payload than the buffer holds: the position
    /// of the length field, the declared length, and how many payload
    /// bytes actually remain.
    UnexpectedEndOfData(usize, u32, usize),
}

} // verus!
