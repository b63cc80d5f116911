use api_core::https::{BuildError, ClientBuilder};
use api_core::state::{Args, State};

#[test]
fn build_default_config() {
    let b = ClientBuilder::new();
    assert_eq!(b.config.timeout_seconds, 60);
    assert!(!b.config.set_nodelay);
    assert!(!b.config.enforce_https);
    assert!(!b.config.set_reuse_address);
    assert!(!b.config.accept_invalid_hostnames);
    assert!(b.config.accept_invalid_certs);
    assert!(b.config.import_cert_path.is_none());
}

#[test]
fn build_setters_update_one_field() {
    let b = ClientBuilder::new().timeout(5);
    assert_eq!(b.config.timeout_seconds, 5);
    assert!(!b.config.set_nodelay);

    let b = ClientBuilder::new().nodelay(true);
    assert!(b.config.set_nodelay);
    assert_eq!(b.config.timeout_seconds, 60);

    let b = ClientBuilder::new().enforce_http(true);
    assert!(b.config.enforce_https);
    assert!(!b.config.set_reuse_address);

    let b = ClientBuilder::new().reuse_address(true);
    assert!(b.config.set_reuse_address);
    assert!(!b.config.enforce_https);

    let b = ClientBuilder::new().accept_invalid_hostnames(true);
    assert!(b.config.accept_invalid_hostnames);
    assert!(b.config.accept_invalid_certs);

    let b = ClientBuilder::new().accept_invalid_certs(false);
    assert!(!b.config.accept_invalid_certs);
    assert!(!b.config.accept_invalid_hostnames);
}

#[test]
fn build_import_cert_stores_path() {
    let b = ClientBuilder::new().import_cert(Some("/etc/pki/root.pem"));
    assert_eq!(b.config.import_cert_path.as_deref(), Some("/etc/pki/root.pem"));
    let b = b.import_cert(None);
    assert!(b.config.import_cert_path.is_none());
}

#[test]
fn build_without_cert_succeeds_with_configured_timeout() {
    let client = ClientBuilder::new()
        .timeout(7)
        .nodelay(true)
        .build(None)
        .expect("building without a certificate import must not report a cert error");
    assert_eq!(client.config.timeout_seconds, 7);
    assert!(client.config.set_nodelay);

    let copy = client.clone();
    assert_eq!(copy.config.timeout_seconds, 7);
}

#[test]
fn build_unreadable_cert_is_a_read_failure() {
    let b = ClientBuilder::new().import_cert(Some("/no/such/file.pem"));
    let r = b.build(Some(Err("No such file or directory".to_string())));
    assert_eq!(r.err(), Some(BuildError::CertReadFailure));
}

#[test]
fn build_malformed_cert_is_a_parse_failure() {
    let b = ClientBuilder::new().import_cert(Some("/tmp/garbage.pem"));
    let r = b.build(Some(Ok(b"this is not a PEM certificate".to_vec())));
    assert_eq!(r.err(), Some(BuildError::CertParseFailure));
}

#[test]
fn build_assembly_is_exact_for_each_transport_outcome() {
    let config = api_core::https::ClientConfig::default();
    let refused = api_core::https::assemble_client(&config, Err(()));
    assert_eq!(refused.err(), Some(BuildError::TransportInit));

    let transport = reqwest::Client::new();
    let built = api_core::https::assemble_client(&config, Ok(transport)).expect("client assembles");
    assert_eq!(built.config.timeout_seconds, 60);
    assert!(built.config.accept_invalid_certs);
}

#[test]
fn build_state_carries_argument_timeout() {
    let state = State::new(Args { port: 8080, timeout: 42 }).expect("state builds");
    assert_eq!(state.client.config.timeout_seconds, 42);
    assert!(state.client.config.import_cert_path.is_none());
    let copy = state.clone();
    assert_eq!(copy.client.config.timeout_seconds, 42);
}
