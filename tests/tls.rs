use tonic_rustls::{alpn_h2, check_protocol, ConfigError, NegotiationError, ProtocolUse, TlsAcceptor, TlsConnector};

#[test]
fn alpn_token_is_h2() {
    assert_eq!(alpn_h2(), b"h2".to_vec());
}

#[test]
fn connector_appends_h2() {
    let c = TlsConnector::new(vec![b"http/1.1".to_vec()], "example.com", false).unwrap();
    assert_eq!(c.offers(), &vec![b"http/1.1".to_vec(), b"h2".to_vec()]);
    assert!(!c.assume_http2());
    assert_eq!(c.server_name().to_str(), "example.com");
}

#[test]
fn connector_accepts_ip_address() {
    let c = TlsConnector::new(Vec::new(), "127.0.0.1", true).unwrap();
    assert_eq!(c.offers(), &vec![b"h2".to_vec()]);
}

#[test]
fn connector_rejects_malformed_identity() {
    assert!(matches!(
        TlsConnector::new(Vec::new(), "not a host name!", false),
        Err(ConfigError::InvalidServerName)
    ));
    assert!(matches!(TlsConnector::new(Vec::new(), "", false), Err(ConfigError::InvalidServerName)));
}

#[test]
fn acceptor_appends_h2_once() {
    let a = TlsAcceptor::new(Vec::new()).unwrap();
    assert_eq!(a.offers(), &vec![b"h2".to_vec()]);
}

#[test]
fn h2_scenario() {
    let strict = TlsConnector::new(vec![b"h2".to_vec(), b"http/1.1".to_vec()], "example.com", false).unwrap();
    assert_eq!(strict.check_session(Some(b"h2")), Ok(ProtocolUse::Agreed));
    assert_eq!(strict.check_session(Some(b"http/1.1")), Err(NegotiationError::NotNegotiated));
    assert_eq!(strict.check_session(None), Err(NegotiationError::NotNegotiated));
    let lax = TlsConnector::new(vec![b"h2".to_vec()], "example.com", true).unwrap();
    assert_eq!(lax.check_session(None), Ok(ProtocolUse::Assumed));
    assert_eq!(lax.check_session(Some(b"h2")), Ok(ProtocolUse::Agreed));
}

#[test]
fn override_does_not_admit_another_protocol() {
    let lax = TlsConnector::new(Vec::new(), "example.com", true).unwrap();
    assert_eq!(lax.check_session(Some(b"http/1.1")), Err(NegotiationError::NotNegotiated));
    assert_eq!(lax.check_session(Some(b"h")), Err(NegotiationError::NotNegotiated));
    assert_eq!(lax.check_session(Some(b"")), Err(NegotiationError::NotNegotiated));
}

#[test]
fn protocol_policy_without_override() {
    assert_eq!(check_protocol(Some(b"h2"), false), Ok(ProtocolUse::Agreed));
    assert_eq!(check_protocol(Some(b"h3"), false), Err(NegotiationError::NotNegotiated));
    assert_eq!(check_protocol(Some(b"h2c"), false), Err(NegotiationError::NotNegotiated));
    assert_eq!(check_protocol(None, false), Err(NegotiationError::NotNegotiated));
}

#[test]
fn protocol_policy_with_override() {
    assert_eq!(check_protocol(None, true), Ok(ProtocolUse::Assumed));
    assert_eq!(check_protocol(Some(b"h2"), true), Ok(ProtocolUse::Agreed));
}

#[test]
fn offer_h2_keeps_existing_offers() {
    let mut offers = vec![b"a".to_vec(), b"b".to_vec()];
    tonic_rustls::offer_h2(&mut offers);
    assert_eq!(offers, vec![b"a".to_vec(), b"b".to_vec(), b"h2".to_vec()]);
}
