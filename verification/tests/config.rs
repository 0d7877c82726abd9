//! Tests of the connector and acceptor configuration builders.

use tls_async::Certificate;
use tls_async::Identity;
use tls_async::Protocol;
use tls_async::TlsAcceptor;
use tls_async::TlsConnector;

fn sample_identity() -> Identity {
    Identity {
        pkcs12_der: vec![0x30, 0x82, 0x01, 0x00],
        password: String::from("opensesame"),
    }
}

fn sample_certificate(tag: u8) -> Certificate {
    Certificate {
        der: vec![0x30, 0x81, tag],
    }
}

#[test]
fn connector_defaults() {
    let connector = TlsConnector::new();
    assert_eq!(connector.config.identity, None);
    assert_eq!(connector.config.min_protocol, Some(Protocol::Tlsv10));
    assert_eq!(connector.config.max_protocol, None);
    assert!(connector.config.root_certificates.is_empty());
    assert!(!connector.config.accept_invalid_certs);
    assert!(connector.config.use_sni);
    assert!(!connector.config.accept_invalid_hostnames);
}

#[test]
fn connector_builder_records_every_option() {
    let mut builder = TlsConnector::builder();
    builder.identity(sample_identity());
    builder.min_protocol_version(Some(Protocol::Tlsv12));
    builder.max_protocol_version(Some(Protocol::Tlsv13));
    builder.add_root_certificate(sample_certificate(1));
    builder.add_root_certificate(sample_certificate(2));
    builder.danger_accept_invalid_certs(true);
    builder.use_sni(false);
    builder.danger_accept_invalid_hostnames(true);
    let connector = builder.build();

    assert_eq!(connector.config.identity, Some(sample_identity()));
    assert_eq!(connector.config.min_protocol, Some(Protocol::Tlsv12));
    assert_eq!(connector.config.max_protocol, Some(Protocol::Tlsv13));
    assert_eq!(
        connector.config.root_certificates,
        vec![sample_certificate(1), sample_certificate(2)]
    );
    assert!(connector.config.accept_invalid_certs);
    assert!(!connector.config.use_sni);
    assert!(connector.config.accept_invalid_hostnames);
}

#[test]
fn connector_setters_leave_other_options_alone() {
    let mut builder = TlsConnector::builder();
    builder.danger_accept_invalid_certs(true);
    assert_eq!(builder.config.min_protocol, Some(Protocol::Tlsv10));
    assert!(builder.config.use_sni);
    assert!(!builder.config.accept_invalid_hostnames);
    builder.min_protocol_version(None);
    assert!(builder.config.accept_invalid_certs);
    assert_eq!(builder.config.min_protocol, None);
}

#[test]
fn acceptor_defaults() {
    let acceptor = TlsAcceptor::new(sample_identity());
    assert_eq!(acceptor.config.identity, sample_identity());
    assert_eq!(acceptor.config.min_protocol, Some(Protocol::Tlsv10));
    assert_eq!(acceptor.config.max_protocol, None);
}

#[test]
fn acceptor_builder_records_version_bounds() {
    let mut builder = TlsAcceptor::builder(sample_identity());
    builder.min_protocol_version(Some(Protocol::Tlsv11));
    builder.max_protocol_version(Some(Protocol::Tlsv12));
    let acceptor = builder.build();
    assert_eq!(acceptor.config.identity, sample_identity());
    assert_eq!(acceptor.config.min_protocol, Some(Protocol::Tlsv11));
    assert_eq!(acceptor.config.max_protocol, Some(Protocol::Tlsv12));
}
