//! The vocabulary shared by the blocking-style engine and the poll-style
//! caller: blocking results on one side, poll outcomes on the other, and the
//! conversion between them.

use vstd::prelude::*;

verus! {

/// The outcome of one poll: either the operation finished with a value, or it
/// must be retried once the transport is ready again.
#[derive(Debug, PartialEq, Eq)]
pub enum Poll<T> {
    /// The operation completed with this result.
    Ready(T),
    /// The operation cannot make progress yet; the caller suspends and polls
    /// again later.
    Pending,
}

/// A transport or engine error in the blocking-call vocabulary.  The protocol
/// reads exactly one thing from such an error: whether it is the distinguished
/// retryable "would block" signal.  Every other error is carried through
/// unchanged as an opaque code.
#[derive(Clone, Copy, Debug, PartialEq, Eq, Structural)]
pub enum IoError {
    /// The distinguished non-fatal signal: no data or buffer space is
    /// available right now.
    WouldBlock,
    /// Any other error, identified by a code the caller assigned.
    Other(u64),
}

/// What a blocking-call result looks like to a polling caller: success and
/// hard errors are ready, a would-block is a suspension.
pub open spec fn spec_cvt<T>(r: Result<T, IoError>) -> Poll<Result<T, IoError>> {
    match r {
        Ok(v) => Poll::Ready(Ok(v)),
        Err(IoError::WouldBlock) => Poll::Pending,
        Err(e) => Poll::Ready(Err(e)),
    }
}

/// Converts a blocking-call result into a poll outcome: `Ok` completes,
/// a would-block suspends, and any other error completes with that error
/// unchanged.  Would-block is never surfaced as an error value.
pub fn cvt<T>(r: Result<T, IoError>) -> (p: Poll<Result<T, IoError>>)
    ensures
        p == spec_cvt(r),
{
    match r {
        Ok(v) => Poll::Ready(Ok(v)),
        Err(IoError::WouldBlock) => Poll::Pending,
        Err(e) => Poll::Ready(Err(e)),
    }
}

} // verus!
