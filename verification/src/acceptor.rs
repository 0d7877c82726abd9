//! Server-side configuration: a builder collecting the options an acceptor
//! is seeded with, and the immutable acceptor those options become.

use vstd::prelude::*;

use crate::config::Identity;
use crate::config::Protocol;

verus! {

/// The full set of options a server handshake is seeded with.
pub struct AcceptorConfig {
    /// The server's private key and certificate chain.
    pub identity: Identity,
    /// The oldest protocol version the acceptor will negotiate; `None`
    /// allows the oldest the engine supports.
    pub min_protocol: Option<Protocol>,
    /// The newest protocol version the acceptor will negotiate; `None`
    /// allows the newest the engine supports.
    pub max_protocol: Option<Protocol>,
}

/// The defaults an acceptor builder starts from, given its identity:
/// versions bounded below by TLS 1.0 and unbounded above.
pub open spec fn is_default_acceptor_config(c: AcceptorConfig, identity: Identity) -> bool {
    &&& c.identity == identity
    &&& c.min_protocol == Some(Protocol::Tlsv10)
    &&& c.max_protocol is None
}

/// A builder for [`TlsAcceptor`]s.
pub struct TlsAcceptorBuilder {
    /// The options collected so far.
    pub config: AcceptorConfig,
}

impl TlsAcceptorBuilder {
    /// Sets the minimum supported protocol version; `None` enables the
    /// oldest protocols the engine supports.  Defaults to
    /// `Some(Protocol::Tlsv10)`.
    pub fn min_protocol_version(&mut self, protocol: Option<Protocol>)
        ensures
            final(self).config == (AcceptorConfig { min_protocol: protocol, ..old(self).config }),
    {
        self.config.min_protocol = protocol;
    }

    /// Sets the maximum supported protocol version; `None` enables the
    /// newest protocols the engine supports.  Defaults to `None`.
    pub fn max_protocol_version(&mut self, protocol: Option<Protocol>)
        ensures
            final(self).config == (AcceptorConfig { max_protocol: protocol, ..old(self).config }),
    {
        self.config.max_protocol = protocol;
    }

    /// Freezes the collected options into an acceptor.  Configuration values
    /// are always buildable; only the engine-backed construction around this
    /// subsystem can fail.
    pub fn build(self) -> (a: TlsAcceptor)
        ensures
            a.config == self.config,
    {
        TlsAcceptor { config: self.config }
    }
}

/// An immutable server configuration, consumed by the engine's initial
/// server handshake call and shareable across many concurrent handshakes.
pub struct TlsAcceptor {
    /// The negotiated options.
    pub config: AcceptorConfig,
}

impl TlsAcceptor {
    /// An acceptor with default settings serving with this identity.
    pub fn new(identity: Identity) -> (a: TlsAcceptor)
        ensures
            is_default_acceptor_config(a.config, identity),
    {
        TlsAcceptor::builder(identity).build()
    }

    /// A builder starting from the default settings, serving with this
    /// identity.
    pub fn builder(identity: Identity) -> (b: TlsAcceptorBuilder)
        ensures
            is_default_acceptor_config(b.config, identity),
    {
        TlsAcceptorBuilder {
            config: AcceptorConfig {
                identity,
                min_protocol: Some(Protocol::Tlsv10),
                max_protocol: None,
            },
        }
    }
}

} // verus!
