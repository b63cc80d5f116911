//! Outbound HTTPS client: configuration snapshot, fluent builder, and the
//! validated build pipeline.
//!
//! The transport itself comes from the `reqwest` stack and is opaque here;
//! the build pipeline is verified around trusted declarations of the few
//! calls it makes. Reading the root-certificate file is I/O and stays with
//! the caller: `build` takes the outcome of that read as a plain value and
//! makes every decision about it here.

use vstd::prelude::*;

verus! {

#[verifier::external_type_specification]
#[verifier::external_body]
pub struct ExCertificate(reqwest::tls::Certificate);

#[verifier::external_type_specification]
#[verifier::external_body]
pub struct ExReqwestClient(reqwest::Client);

#[verifier::external_type_specification]
#[verifier::external_body]
pub struct ExClientWithMiddleware(reqwest_middleware::ClientWithMiddleware);

/// Relies on `Clone` for `reqwest_middleware::ClientWithMiddleware`: a
/// cheap, reference-counted copy of the same underlying client; nothing is
/// claimed of the copy here.
pub assume_specification[ <reqwest_middleware::ClientWithMiddleware as Clone>::clone ](
    c: &reqwest_middleware::ClientWithMiddleware,
) -> reqwest_middleware::ClientWithMiddleware;

// Whether `reqwest::tls::Certificate::from_pem` accepts these bytes as a
// PEM-encoded certificate; acceptance depends on the bytes alone.
pub uninterp spec fn pem_parse_ok(pem: Seq<u8>) -> bool;

/// Relies on `reqwest::tls::Certificate::from_pem`: it returns `Ok` exactly
/// when the bytes are a well-formed PEM certificate, a property of the bytes
/// alone. The cause carried by a refusal is dropped here.
#[verifier::external_body]
fn parse_pem_certificate(pem: &[u8]) -> (r: Result<reqwest::tls::Certificate, ()>)
    ensures
        r.is_ok() == pem_parse_ok(pem@),
{
    reqwest::tls::Certificate::from_pem(pem).map_err(|_| ())
}

/// Relies on `reqwest::Client::builder` and its configuration methods: the
/// transport is built with connect timeout `timeout_seconds`, redirect
/// policy `none` (3xx responses are surfaced, never followed), TCP nodelay,
/// HTTPS enforcement and TLS-verification bypass as given, and the extra
/// root certificate when one is handed in. Construction does no network I/O;
/// it can fail (for example when the TLS backend cannot initialize), and the
/// cause carried by a failure is dropped here.
#[verifier::external_body]
fn build_transport(
    timeout_seconds: u64,
    set_nodelay: bool,
    enforce_https: bool,
    accept_invalid_hostnames: bool,
    accept_invalid_certs: bool,
    extra_root_cert: Option<reqwest::tls::Certificate>,
) -> (r: Result<reqwest::Client, ()>) {
    let builder = reqwest::Client::builder()
        .danger_accept_invalid_hostnames(accept_invalid_hostnames)
        .danger_accept_invalid_certs(accept_invalid_certs)
        .connect_timeout(core::time::Duration::new(timeout_seconds, 0))
        .redirect(reqwest::redirect::Policy::none())
        .tcp_nodelay(set_nodelay)
        .https_only(enforce_https);
    match extra_root_cert {
        Some(cert) => builder.add_root_certificate(cert).build().map_err(|_| ()),
        None => builder.build().map_err(|_| ()),
    }
}

/// Relies on `reqwest_middleware::ClientBuilder`: it wraps the transport
/// unchanged with a tracing middleware (`reqwest_tracing::TracingMiddleware`
/// with `SpanBackendWithUrl`) that opens one span per outbound call, named
/// by the fixed client identifier and recording the request URL.
#[verifier::external_body]
fn attach_tracing_middleware(client: reqwest::Client) -> (r:
    reqwest_middleware::ClientWithMiddleware) {
    reqwest_middleware::ClientBuilder::new(client)
        .with_init(reqwest_middleware::Extension(reqwest_tracing::OtelName(
            "reqwest-client".into(),
        )))
        .with(reqwest_tracing::TracingMiddleware::<reqwest_tracing::SpanBackendWithUrl>::new())
        .build()
}

/// Immutable configuration snapshot for the outbound client. Fully resolved
/// before the client is built; never changed afterwards.
#[derive(Debug)]
pub struct ClientConfig {
    /// Connect timeout in seconds.
    pub timeout_seconds: u64,
    /// Disable TCP buffering delay.
    pub set_nodelay: bool,
    /// Reject plaintext HTTP targets.
    pub enforce_https: bool,
    /// Socket reuse hint; carried but not applied by the transport.
    pub set_reuse_address: bool,
    /// Skip TLS hostname verification.
    pub accept_invalid_hostnames: bool,
    /// Skip TLS certificate verification.
    pub accept_invalid_certs: bool,
    /// Path of a PEM-encoded root certificate to trust in addition to the
    /// system store.
    pub import_cert_path: Option<String>,
}

/// The default configuration: 60 s timeout, no transport toggles, invalid
/// certificates accepted, no imported certificate.
pub open spec fn spec_default_config() -> ClientConfig {
    ClientConfig {
        timeout_seconds: 60,
        set_nodelay: false,
        enforce_https: false,
        set_reuse_address: false,
        accept_invalid_hostnames: false,
        accept_invalid_certs: true,
        import_cert_path: None,
    }
}

impl Default for ClientConfig {
    fn default() -> (r: Self)
        ensures
            r == spec_default_config(),
    {
        ClientConfig {
            timeout_seconds: 60u64,
            set_nodelay: false,
            enforce_https: false,
            set_reuse_address: false,
            accept_invalid_hostnames: false,
            accept_invalid_certs: true,
            import_cert_path: None,
        }
    }
}

impl Clone for ClientConfig {
    fn clone(&self) -> (r: Self)
        ensures
            r == *self,
    {
        ClientConfig {
            timeout_seconds: self.timeout_seconds,
            set_nodelay: self.set_nodelay,
            enforce_https: self.enforce_https,
            set_reuse_address: self.set_reuse_address,
            accept_invalid_hostnames: self.accept_invalid_hostnames,
            accept_invalid_certs: self.accept_invalid_certs,
            import_cert_path: match &self.import_cert_path {
                Some(s) => Some(s.clone()),
                None => None,
            },
        }
    }
}

/// A built outbound client: the opaque transport with its tracing
/// middleware, together with the configuration it was built from.
pub struct HttpsClient {
    pub client: reqwest_middleware::ClientWithMiddleware,
    pub config: ClientConfig,
}

impl Clone for HttpsClient {
    /// A cheap, reference-counted copy for another request-handling context;
    /// the configuration it records is unchanged.
    fn clone(&self) -> (r: Self)
        ensures
            r.config == self.config,
    {
        HttpsClient { client: self.client.clone(), config: self.config.clone() }
    }
}

/// Why `build` failed: the certificate file could not be read, its contents
/// were not PEM, or the transport could not be constructed.
#[derive(Debug, Clone, Copy, PartialEq, Eq, Structural)]
pub enum BuildError {
    CertReadFailure,
    CertParseFailure,
    TransportInit,
}

/// Fluent builder that turns a `ClientConfig` into an `HttpsClient`.
#[derive(Debug)]
pub struct ClientBuilder {
    pub config: ClientConfig,
}

impl Clone for ClientBuilder {
    fn clone(&self) -> (r: Self)
        ensures
            r == *self,
    {
        ClientBuilder { config: self.config.clone() }
    }
}

impl Default for ClientBuilder {
    fn default() -> (r: Self)
        ensures
            r.config == spec_default_config(),
    {
        ClientBuilder { config: ClientConfig::default() }
    }
}

/// The read of the configured certificate file failed.
pub open spec fn spec_cert_read_failed(cert_read: Option<Result<Vec<u8>, String>>) -> bool {
    cert_read matches Some(outcome) && outcome is Err
}

/// The certificate file was read but its bytes are not a PEM certificate.
pub open spec fn spec_cert_parse_failed(cert_read: Option<Result<Vec<u8>, String>>) -> bool {
    cert_read matches Some(Ok(pem)) && !pem_parse_ok(pem@)
}

/// The last step of the build pipeline, for each possible outcome of the
/// transport construction: a client recording `config` when the transport
/// stack produced one, `TransportInit` when it refused.
pub fn assemble_client(config: &ClientConfig, transport: Result<reqwest::Client, ()>) -> (r:
    Result<HttpsClient, BuildError>)
    ensures
        transport is Ok ==> (r matches Ok(c) && c.config == *config),
        transport is Err ==> r == Err::<HttpsClient, BuildError>(BuildError::TransportInit),
{
    match transport {
        Ok(t) => {
            let client = attach_tracing_middleware(t);
            Ok(HttpsClient { client, config: config.clone() })
        },
        Err(()) => Err(BuildError::TransportInit),
    }
}

impl ClientBuilder {
    /// A builder holding the default configuration.
    pub fn new() -> (r: Self)
        ensures
            r.config == spec_default_config(),
    {
        let config = ClientConfig::default();
        Self { config }
    }

    /// Set the connect timeout in seconds; every other option is kept.
    pub fn timeout(self, arg: u64) -> (r: Self)
        ensures
            r.config == (ClientConfig { timeout_seconds: arg, ..self.config }),
    {
        ClientBuilder { config: ClientConfig { timeout_seconds: arg, ..self.config } }
    }

    /// Set the TCP nodelay toggle; every other option is kept.
    pub fn nodelay(self, arg: bool) -> (r: Self)
        ensures
            r.config == (ClientConfig { set_nodelay: arg, ..self.config }),
    {
        ClientBuilder { config: ClientConfig { set_nodelay: arg, ..self.config } }
    }

    /// Set HTTPS enforcement; every other option is kept.
    pub fn enforce_http(self, arg: bool) -> (r: Self)
        ensures
            r.config == (ClientConfig { enforce_https: arg, ..self.config }),
    {
        ClientBuilder { config: ClientConfig { enforce_https: arg, ..self.config } }
    }

    /// Set the socket reuse hint; every other option is kept.
    pub fn reuse_address(self, arg: bool) -> (r: Self)
        ensures
            r.config == (ClientConfig { set_reuse_address: arg, ..self.config }),
    {
        ClientBuilder { config: ClientConfig { set_reuse_address: arg, ..self.config } }
    }

    /// Set whether TLS hostname verification is skipped; every other option
    /// is kept.
    pub fn accept_invalid_hostnames(self, arg: bool) -> (r: Self)
        ensures
            r.config == (ClientConfig { accept_invalid_hostnames: arg, ..self.config }),
    {
        ClientBuilder { config: ClientConfig { accept_invalid_hostnames: arg, ..self.config } }
    }

    /// Set whether TLS certificate verification is skipped; every other
    /// option is kept.
    pub fn accept_invalid_certs(self, arg: bool) -> (r: Self)
        ensures
            r.config == (ClientConfig { accept_invalid_certs: arg, ..self.config }),
    {
        ClientBuilder { config: ClientConfig { accept_invalid_certs: arg, ..self.config } }
    }

    /// Set or clear the path of the extra root certificate; every other
    /// option is kept.
    pub fn import_cert(self, arg: Option<&str>) -> (r: Self)
        ensures
            arg matches Some(p) ==> (r.config.import_cert_path matches Some(stored) && stored@ == p@),
            arg is None ==> r.config.import_cert_path is None,
            r.config == (ClientConfig { import_cert_path: r.config.import_cert_path, ..self.config }),
    {
        let stored: Option<String> = match arg {
            Some(p) => Some(p.to_string()),
            None => None,
        };
        ClientBuilder { config: ClientConfig { import_cert_path: stored, ..self.config } }
    }

    /// Build the client from the configuration.
    ///
    /// `cert_read` is the outcome of reading the configured certificate
    /// file, `None` exactly when no import path is set: the read itself is
    /// the caller's I/O, every decision about it is made and checked here.
    ///
    /// Fails with `CertReadFailure` exactly when the read failed, with
    /// `CertParseFailure` exactly when the bytes read are not a PEM
    /// certificate, and with `TransportInit` only when the transport stack
    /// refused an otherwise valid configuration. A built client records the
    /// configuration it was built from, its connect timeout included.
    pub fn build(&self, cert_read: Option<Result<Vec<u8>, String>>) -> (r: Result<
        HttpsClient,
        BuildError,
    >)
        requires
            self.config.import_cert_path is Some <==> cert_read is Some,
        ensures
            (r matches Err(e) && e == BuildError::CertReadFailure) <==> spec_cert_read_failed(
                cert_read,
            ),
            (r matches Err(e) && e == BuildError::CertParseFailure) <==> spec_cert_parse_failed(
                cert_read,
            ),
            (r matches Err(e) && e == BuildError::TransportInit) ==> (!spec_cert_read_failed(
                cert_read,
            ) && !spec_cert_parse_failed(cert_read)),
            r matches Ok(c) ==> c.config == self.config,
    {
        let extra_root_cert: Option<reqwest::tls::Certificate> = match cert_read {
            None => None,
            Some(Err(_)) => {
                return Err(BuildError::CertReadFailure);
            },
            Some(Ok(pem)) => {
                match parse_pem_certificate(pem.as_slice()) {
                    Ok(cert) => Some(cert),
                    Err(_) => {
                        return Err(BuildError::CertParseFailure);
                    },
                }
            },
        };
        let transport = build_transport(
            self.config.timeout_seconds,
            self.config.set_nodelay,
            self.config.enforce_https,
            self.config.accept_invalid_hostnames,
            self.config.accept_invalid_certs,
            extra_root_cert,
        );
        assemble_client(&self.config, transport)
    }
}

} // verus!
