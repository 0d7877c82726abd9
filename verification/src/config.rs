//! Plain-value models of the configuration material the engine consumes:
//! protocol version bounds, certificates and identities.
//!
//! The subsystem never looks inside certificate or key material; it only
//! stores it and hands it to the engine.  Each item is therefore held as the
//! bytes that define it, so configuration is built and compared as ordinary
//! values.

use vstd::prelude::*;

verus! {

/// A TLS protocol version the engine can be bounded to.
#[derive(Clone, Copy, Debug, PartialEq, Eq, Structural)]
pub enum Protocol {
    /// SSL 3.0.
    Sslv3,
    /// TLS 1.0.
    Tlsv10,
    /// TLS 1.1.
    Tlsv11,
    /// TLS 1.2.
    Tlsv12,
    /// TLS 1.3.
    Tlsv13,
}

/// An X.509 certificate, held as its DER encoding.
#[derive(Clone, Debug, PartialEq, Eq)]
pub struct Certificate {
    /// The DER-encoded certificate.
    pub der: Vec<u8>,
}

/// A certificate/private-key pair, held as a PKCS #12 archive and the
/// password that opens it.  A connector presents it for mutual
/// authentication; an acceptor serves with it.
#[derive(Clone, Debug, PartialEq, Eq)]
pub struct Identity {
    /// The DER-encoded PKCS #12 archive.
    pub pkcs12_der: Vec<u8>,
    /// The archive's password.
    pub password: String,
}

} // verus!
