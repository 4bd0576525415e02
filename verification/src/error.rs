use vstd::prelude::*;

verus! {

/// Why a read did not produce its buffer.
#[derive(Debug, Clone, Copy, PartialEq, Eq, Structural)]
pub enum Error {
    /// The source rejected the request before any operation began.
    SubmissionError,
    /// The source reported that a submitted operation failed; holds the
    /// operating system's error code.
    CompletionError(i32),
    /// A buffer wrapper was asked for its allocation while it had more than
    /// one holder.
    BufferStillReferenced,
    /// A completed read found its buffer still held by another party.
    InternalInvariantError,
}

} // verus!
