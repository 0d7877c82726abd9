//! Client-side configuration: a builder collecting the options a connector
//! is seeded with, and the immutable connector those options become.

use vstd::prelude::*;

use crate::config::Certificate;
use crate::config::Identity;
use crate::config::Protocol;

verus! {

/// The full set of options a client handshake is seeded with.
pub struct ConnectorConfig {
    /// The identity presented for client certificate authentication, if any.
    pub identity: Option<Identity>,
    /// The oldest protocol version the connector will negotiate; `None`
    /// allows the oldest the engine supports.
    pub min_protocol: Option<Protocol>,
    /// The newest protocol version the connector will negotiate; `None`
    /// allows the newest the engine supports.
    pub max_protocol: Option<Protocol>,
    /// Roots trusted in addition to the system trust store.
    pub root_certificates: Vec<Certificate>,
    /// Disables certificate validation entirely.  Dangerous.
    pub accept_invalid_certs: bool,
    /// Whether Server Name Indication is sent.
    pub use_sni: bool,
    /// Disables hostname verification.  Dangerous.
    pub accept_invalid_hostnames: bool,
}

/// The defaults a fresh connector builder starts from: no identity, versions
/// bounded below by TLS 1.0, no extra roots, validation and hostname
/// verification on, SNI on.
pub open spec fn is_default_connector_config(c: ConnectorConfig) -> bool {
    &&& c.identity is None
    &&& c.min_protocol == Some(Protocol::Tlsv10)
    &&& c.max_protocol is None
    &&& c.root_certificates@.len() == 0
    &&& !c.accept_invalid_certs
    &&& c.use_sni
    &&& !c.accept_invalid_hostnames
}

/// A builder for [`TlsConnector`]s.
pub struct TlsConnectorBuilder {
    /// The options collected so far.
    pub config: ConnectorConfig,
}

impl TlsConnectorBuilder {
    /// Sets the identity to be used for client certificate authentication.
    pub fn identity(&mut self, identity: Identity)
        ensures
            final(self).config == (ConnectorConfig {
                identity: Some(identity),
                ..old(self).config
            }),
    {
        self.config.identity = Some(identity);
    }

    /// Sets the minimum supported protocol version; `None` enables the
    /// oldest protocols the engine supports.  Defaults to
    /// `Some(Protocol::Tlsv10)`.
    pub fn min_protocol_version(&mut self, protocol: Option<Protocol>)
        ensures
            final(self).config == (ConnectorConfig {
                min_protocol: protocol,
                ..old(self).config
            }),
    {
        self.config.min_protocol = protocol;
    }

    /// Sets the maximum supported protocol version; `None` enables the
    /// newest protocols the engine supports.  Defaults to `None`.
    pub fn max_protocol_version(&mut self, protocol: Option<Protocol>)
        ensures
            final(self).config == (ConnectorConfig {
                max_protocol: protocol,
                ..old(self).config
            }),
    {
        self.config.max_protocol = protocol;
    }

    /// Adds a certificate to the set of roots the connector trusts beyond
    /// the system store.
    pub fn add_root_certificate(&mut self, cert: Certificate)
        ensures
            final(self).config.root_certificates@ == old(self).config.root_certificates@.push(cert),
            final(self).config.identity == old(self).config.identity,
            final(self).config.min_protocol == old(self).config.min_protocol,
            final(self).config.max_protocol == old(self).config.max_protocol,
            final(self).config.accept_invalid_certs == old(self).config.accept_invalid_certs,
            final(self).config.use_sni == old(self).config.use_sni,
            final(self).config.accept_invalid_hostnames == old(
                self,
            ).config.accept_invalid_hostnames,
    {
        self.config.root_certificates.push(cert);
    }

    /// Controls certificate validation.  Defaults to `false`; trusting
    /// invalid certificates trusts *any* certificate for *any* site,
    /// expired ones included.
    pub fn danger_accept_invalid_certs(&mut self, accept_invalid_certs: bool)
        ensures
            final(self).config == (ConnectorConfig {
                accept_invalid_certs,
                ..old(self).config
            }),
    {
        self.config.accept_invalid_certs = accept_invalid_certs;
    }

    /// Controls the use of Server Name Indication.  Defaults to `true`.
    pub fn use_sni(&mut self, use_sni: bool)
        ensures
            final(self).config == (ConnectorConfig { use_sni, ..old(self).config }),
    {
        self.config.use_sni = use_sni;
    }

    /// Controls hostname verification.  Defaults to `false`; trusting
    /// invalid hostnames trusts any valid certificate for any site.
    pub fn danger_accept_invalid_hostnames(&mut self, accept_invalid_hostnames: bool)
        ensures
            final(self).config == (ConnectorConfig {
                accept_invalid_hostnames,
                ..old(self).config
            }),
    {
        self.config.accept_invalid_hostnames = accept_invalid_hostnames;
    }

    /// Freezes the collected options into a connector.  Configuration values
    /// are always buildable; only the engine-backed construction around this
    /// subsystem can fail.
    pub fn build(self) -> (c: TlsConnector)
        ensures
            c.config == self.config,
    {
        TlsConnector { config: self.config }
    }
}

/// An immutable client configuration, consumed by the engine's initial
/// client handshake call and shareable across many concurrent handshakes.
pub struct TlsConnector {
    /// The negotiated options.
    pub config: ConnectorConfig,
}

impl TlsConnector {
    /// A connector with default settings.
    pub fn new() -> (c: TlsConnector)
        ensures
            is_default_connector_config(c.config),
    {
        TlsConnector::builder().build()
    }

    /// A builder starting from the default settings.
    pub fn builder() -> (b: TlsConnectorBuilder)
        ensures
            is_default_connector_config(b.config),
    {
        TlsConnectorBuilder {
            config: ConnectorConfig {
                identity: None,
                min_protocol: Some(Protocol::Tlsv10),
                max_protocol: None,
                root_certificates: Vec::new(),
                accept_invalid_certs: false,
                use_sni: true,
                accept_invalid_hostnames: false,
            },
        }
    }
}

} // verus!
