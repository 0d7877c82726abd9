//! Asynchronous TLS streams over a synchronous, blocking-style TLS engine.
//!
//! A platform TLS engine exposes handshake, read and write calls that either
//! complete or report "would block".  This crate adapts that interface to a
//! cooperatively scheduled, poll-style one: every operation either finishes,
//! or suspends where the transport would otherwise block and is resumed later
//! by an external scheduler.
//!
//! The crate verifies the suspend/resume protocol itself: how a poll outcome
//! is derived from a blocking-call result, how partial handshake progress is
//! carried across suspensions, and how the transient suspension context is
//! scoped to a single poll.  The cryptographic engine and the transport stay
//! outside; they enter the protocol as plain values (step results, byte
//! counts, diagnostics).

pub mod acceptor;
pub mod blocking;
pub mod bridge;
pub mod config;
pub mod connector;
pub mod errors;
pub mod handshake;
pub mod stream;

pub use acceptor::AcceptorConfig;
pub use acceptor::TlsAcceptor;
pub use acceptor::TlsAcceptorBuilder;
pub use blocking::cvt;
pub use blocking::IoError;
pub use blocking::Poll;
pub use bridge::Bridge;
pub use config::Certificate;
pub use config::Identity;
pub use config::Protocol;
pub use connector::ConnectorConfig;
pub use connector::TlsConnector;
pub use connector::TlsConnectorBuilder;
pub use errors::Error;
pub use handshake::Handshake;
pub use handshake::HandshakeStep;
pub use handshake::PendingTlsStream;
pub use handshake::PollAction;
pub use stream::TlsStream;
