//! The suspension-context bridge: the synchronous face the blocking-style
//! engine sees, backed by an asynchronous transport.
//!
//! The bridge exclusively owns the transport and carries a non-owning,
//! strictly scoped back-reference to the suspension context of the one poll
//! that is currently running.  `context_attached` models that back-reference:
//! it is true exactly between a poll's attach and its clear, and every
//! operation the engine makes through the bridge demands it, so a call with
//! no context attached is ruled out before the code runs.

use vstd::prelude::*;

use crate::blocking::IoError;
use crate::blocking::Poll;

verus! {

/// What one asynchronous transport operation answered: ready with a
/// blocking-style result, or not ready yet.
pub open spec fn spec_absorb<T>(response: Poll<Result<T, IoError>>) -> Result<T, IoError> {
    match response {
        Poll::Ready(r) => r,
        Poll::Pending => Err(IoError::WouldBlock),
    }
}

/// The bridge between the engine's blocking-style calls and the asynchronous
/// transport `T` it exclusively owns.
pub struct Bridge<T> {
    /// The transport, owned for the life of the connection.
    pub transport: T,
    /// True exactly while the enclosing poll has attached its suspension
    /// context; absent at all other times.
    pub context_attached: bool,
}

impl<T> Bridge<T> {
    /// Wraps a transport with no suspension context attached.
    pub fn new(transport: T) -> (b: Self)
        ensures
            b.transport == transport,
            !b.context_attached,
    {
        Bridge { transport, context_attached: false }
    }

    /// Attaches the current poll's suspension context.  Demands that none is
    /// attached: contexts are scoped to a single poll and never nest.
    pub fn attach(&mut self)
        requires
            !old(self).context_attached,
        ensures
            final(self).context_attached,
            final(self).transport == old(self).transport,
    {
        self.context_attached = true;
    }

    /// Clears the suspension context.  Every exit path of a poll ends here,
    /// so no reference outlives the poll that attached it.
    pub fn clear(&mut self)
        ensures
            !final(self).context_attached,
            final(self).transport == old(self).transport,
    {
        self.context_attached = false;
    }

    /// A shared reference to the transport, for diagnostics; ownership stays
    /// with the bridge.
    pub fn get_ref(&self) -> (r: &T)
        ensures
            *r == self.transport,
    {
        &self.transport
    }

    /// A mutable reference to the transport; ownership stays with the bridge.
    pub fn get_mut(&mut self) -> (r: &mut T)
        ensures
            *r == old(self).transport,
            final(self).transport == *final(r),
            final(self).context_attached == old(self).context_attached,
    {
        &mut self.transport
    }

    /// Consumes the bridge and releases the transport.
    pub fn into_inner(self) -> (r: T)
        ensures
            r == self.transport,
    {
        self.transport
    }

    /// One synchronous read as the engine sees it: issue one asynchronous
    /// read against the transport; `response` is its answer.  Not-ready
    /// becomes the blocking vocabulary's would-block signal — a retryable
    /// block, not a fatal error — and a ready answer is forwarded unchanged.
    /// May only be called while a suspension context is attached.
    pub fn sync_read(&self, response: Poll<Result<u64, IoError>>) -> (r: Result<u64, IoError>)
        requires
            self.context_attached,
        ensures
            r == spec_absorb(response),
    {
        match response {
            Poll::Ready(r) => r,
            Poll::Pending => Err(IoError::WouldBlock),
        }
    }

    /// One synchronous write as the engine sees it; symmetric to
    /// [`Self::sync_read`].
    pub fn sync_write(&self, response: Poll<Result<u64, IoError>>) -> (r: Result<u64, IoError>)
        requires
            self.context_attached,
        ensures
            r == spec_absorb(response),
    {
        match response {
            Poll::Ready(r) => r,
            Poll::Pending => Err(IoError::WouldBlock),
        }
    }

    /// One synchronous flush as the engine sees it; symmetric to
    /// [`Self::sync_read`].
    pub fn sync_flush(&self, response: Poll<Result<(), IoError>>) -> (r: Result<(), IoError>)
        requires
            self.context_attached,
        ensures
            r == spec_absorb(response),
    {
        match response {
            Poll::Ready(r) => r,
            Poll::Pending => Err(IoError::WouldBlock),
        }
    }
}

} // verus!
