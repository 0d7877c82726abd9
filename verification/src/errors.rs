//! The error taxonomy of the subsystem.
//!
//! Would-block is absent on purpose: it is absorbed by the suspend/resume
//! mechanism and never surfaces as an error value.

use vstd::prelude::*;

verus! {

/// A failure reported to the caller of this subsystem.
///
/// The type parameter `D` is the engine's own diagnostic type; diagnostics are
/// carried through unchanged, never inspected.
#[derive(Debug, PartialEq, Eq)]
pub enum Error<D> {
    /// Invalid configuration, or the engine refused to build a connector or
    /// acceptor from it.
    ConstructionError(D),
    /// The engine reported a certificate or protocol failure during the
    /// handshake; the underlying diagnostic is carried unchanged.
    HandshakeFailure(D),
    /// A programming error: the driver or stream was polled again after it had
    /// already delivered a terminal result.
    RepeatedPoll,
    /// A transport or engine error other than would-block, passed through
    /// unchanged.
    IOError(D),
}

} // verus!
