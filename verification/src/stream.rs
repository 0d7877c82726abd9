//! The established stream: asynchronous read/write/flush/close over a
//! completed engine, each following the same suspend/resume convention as the
//! handshake driver.
//!
//! Each poll attaches the suspension context, makes exactly one synchronous
//! engine call, and detaches the context before it returns — whatever the
//! call returned.  A would-block from the engine suspends the poll; every
//! other result is handed to the caller unchanged.

use vstd::prelude::*;

use crate::blocking::cvt;
use crate::blocking::spec_cvt;
use crate::blocking::IoError;
use crate::blocking::Poll;
use crate::bridge::Bridge;

verus! {

/// A stream whose handshake has completed: both sides are ready to exchange
/// application data.  The stream exclusively owns the completed engine `E`,
/// and the bridge, which owns the transport `T` — one linear ownership chain,
/// released as a whole when the stream is dropped.
pub struct TlsStream<E, T> {
    /// The completed engine, opaque to this subsystem: it decrypts what the
    /// transport carries and encrypts what the caller writes.
    pub engine: E,
    /// The suspension-context bridge the engine's blocking-style calls go
    /// through.
    pub bridge: Bridge<T>,
}

impl<E, T> TlsStream<E, T> {
    /// Builds the post-handshake stream from the completed engine and the
    /// transport, with no suspension context attached.
    pub fn new(engine: E, transport: T) -> (s: Self)
        ensures
            s.engine == engine,
            s.bridge.transport == transport,
            !s.bridge.context_attached,
    {
        TlsStream { engine, bridge: Bridge::new(transport) }
    }

    /// A shared reference to the underlying transport, for diagnostics;
    /// ownership is not transferred.
    pub fn get_ref(&self) -> (r: &T)
        ensures
            *r == self.bridge.transport,
    {
        self.bridge.get_ref()
    }

    /// A mutable reference to the underlying transport; ownership is not
    /// transferred.
    pub fn get_mut(&mut self) -> (r: &mut T)
        ensures
            *r == old(self).bridge.transport,
            final(self).bridge.transport == *final(r),
            final(self).engine == old(self).engine,
            final(self).bridge.context_attached == old(self).bridge.context_attached,
    {
        self.bridge.get_mut()
    }

    /// Opens one poll by attaching the current suspension context.  Demands
    /// that no poll is mid-flight on this stream: at most one poll may be
    /// active at a time, and the context never survives from an earlier one.
    pub fn begin_poll(&mut self)
        requires
            !old(self).bridge.context_attached,
        ensures
            final(self).bridge.context_attached,
            final(self).engine == old(self).engine,
            final(self).bridge.transport == old(self).bridge.transport,
    {
        self.bridge.attach();
    }

    /// Closes the poll a read was made under.  `engine_result` is what the
    /// single synchronous engine read of this poll returned: a would-block
    /// suspends, a byte count or any other error reaches the caller
    /// unchanged.  The suspension context is cleared on every exit path.
    pub fn poll_read(&mut self, engine_result: Result<u64, IoError>) -> (p: Poll<
        Result<u64, IoError>,
    >)
        requires
            old(self).bridge.context_attached,
        ensures
            p == spec_cvt(engine_result),
            !final(self).bridge.context_attached,
            final(self).engine == old(self).engine,
            final(self).bridge.transport == old(self).bridge.transport,
    {
        let p = cvt(engine_result);
        self.bridge.clear();
        p
    }

    /// Closes the poll a write was made under; symmetric to
    /// [`Self::poll_read`].
    pub fn poll_write(&mut self, engine_result: Result<u64, IoError>) -> (p: Poll<
        Result<u64, IoError>,
    >)
        requires
            old(self).bridge.context_attached,
        ensures
            p == spec_cvt(engine_result),
            !final(self).bridge.context_attached,
            final(self).engine == old(self).engine,
            final(self).bridge.transport == old(self).bridge.transport,
    {
        let p = cvt(engine_result);
        self.bridge.clear();
        p
    }

    /// Closes the poll a flush was made under.  The engine drains its
    /// buffered ciphertext to the transport; a would-block suspends, and the
    /// flush is safely re-invoked on resume.
    pub fn poll_flush(&mut self, engine_result: Result<(), IoError>) -> (p: Poll<
        Result<(), IoError>,
    >)
        requires
            old(self).bridge.context_attached,
        ensures
            p == spec_cvt(engine_result),
            !final(self).bridge.context_attached,
            final(self).engine == old(self).engine,
            final(self).bridge.transport == old(self).bridge.transport,
    {
        let p = cvt(engine_result);
        self.bridge.clear();
        p
    }

    /// Closes the poll a shutdown was made under.  The engine performs its
    /// closure handshake; a would-block suspends, and re-invoking the close
    /// resumes that same closure sequence — the engine keeps the closure
    /// state, so nothing is restarted or sent twice.
    pub fn poll_close(&mut self, engine_result: Result<(), IoError>) -> (p: Poll<
        Result<(), IoError>,
    >)
        requires
            old(self).bridge.context_attached,
        ensures
            p == spec_cvt(engine_result),
            !final(self).bridge.context_attached,
            final(self).engine == old(self).engine,
            final(self).bridge.transport == old(self).bridge.transport,
    {
        let p = cvt(engine_result);
        self.bridge.clear();
        p
    }
}

/// The poll outcomes of a run of stream operations: poll `i` makes exactly
/// one synchronous engine call, whose result is `results[i]`.
pub open spec fn stream_run_outputs<T>(results: Seq<Result<T, IoError>>) -> Seq<
    Poll<Result<T, IoError>>,
> {
    Seq::new(results.len(), |i: int| spec_cvt(results[i]))
}

/// A transport that blocks some number of times before an operation gets
/// through costs exactly one engine call and one suspend/resume cycle per
/// blocked attempt: every blocked poll suspends, and the first poll whose
/// engine call does not report would-block delivers that call's result
/// unchanged.
pub proof fn lemma_stream_resolves<T>(results: Seq<Result<T, IoError>>)
    requires
        results.len() >= 1,
        forall|i: int| 0 <= i < results.len() - 1 ==> results[i] == Err::<T, IoError>(
            IoError::WouldBlock,
        ),
        results[results.len() - 1] != Err::<T, IoError>(IoError::WouldBlock),
    ensures
        stream_run_outputs(results).len() == results.len(),
        forall|i: int| 0 <= i < results.len() - 1 ==> stream_run_outputs(results)[i] == Poll::<
            Result<T, IoError>,
        >::Pending,
        stream_run_outputs(results)[results.len() - 1] == Poll::Ready(results[results.len() - 1]),
{
    match results[results.len() - 1] {
        Ok(_) => {}
        Err(e) => {
            assert(e != IoError::WouldBlock);
        }
    }
}

} // verus!
