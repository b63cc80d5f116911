//! The closed set of service failures and their mapping to HTTP responses.

use vstd::prelude::*;

verus! {

/// A service failure: request-scoped (`Forbidden`, `Unauthorized`,
/// `NotFound`) or startup-fatal (`TelemetryInitError`, `LoggingInitError`,
/// which carry the message of the underlying cause).
#[derive(Debug)]
pub enum Error {
    Forbidden,
    Unauthorized,
    NotFound,
    TelemetryInitError(String),
    LoggingInitError(String),
}

impl Clone for Error {
    fn clone(&self) -> (r: Self)
        ensures
            r == *self,
    {
        match self {
            Error::Forbidden => Error::Forbidden,
            Error::Unauthorized => Error::Unauthorized,
            Error::NotFound => Error::NotFound,
            Error::TelemetryInitError(m) => Error::TelemetryInitError(m.clone()),
            Error::LoggingInitError(m) => Error::LoggingInitError(m.clone()),
        }
    }
}

impl Error {
    /// The HTTP status this error renders to. `Forbidden` and `Unauthorized`
    /// deliberately share 401; the startup errors render as 500.
    pub open spec fn spec_status(&self) -> u16 {
        match self {
            Error::Forbidden => 401,
            Error::Unauthorized => 401,
            Error::NotFound => 404,
            Error::TelemetryInitError(_) => 500,
            Error::LoggingInitError(_) => 500,
        }
    }

    /// The response body this error renders to: a fixed JSON object for the
    /// request-scoped errors, the transparent cause for the startup errors.
    pub open spec fn spec_body(&self) -> Seq<char> {
        match self {
            Error::Forbidden => "{\"error\": \"Cannot get config: Forbidden\"}"@,
            Error::Unauthorized => "{\"error\": \"Cannot get config: Unauthorized\"}"@,
            Error::NotFound => "{\"error\": \"Cannot get config: Not found\"}"@,
            Error::TelemetryInitError(m) => m@,
            Error::LoggingInitError(m) => m@,
        }
    }

    /// Status code of the response for this error.
    pub fn status_code(&self) -> (r: u16)
        ensures
            r == self.spec_status(),
    {
        match self {
            Error::Forbidden | Error::Unauthorized => 401,
            Error::NotFound => 404,
            Error::TelemetryInitError(_) | Error::LoggingInitError(_) => 500,
        }
    }

    /// Body of the response for this error.
    pub fn body_text(&self) -> (r: String)
        ensures
            r@ == self.spec_body(),
    {
        match self {
            Error::Forbidden => "{\"error\": \"Cannot get config: Forbidden\"}".to_string(),
            Error::Unauthorized => "{\"error\": \"Cannot get config: Unauthorized\"}".to_string(),
            Error::NotFound => "{\"error\": \"Cannot get config: Not found\"}".to_string(),
            Error::TelemetryInitError(m) => m.clone(),
            Error::LoggingInitError(m) => m.clone(),
        }
    }

    /// The response-mapping law: `Forbidden` and `Unauthorized` both render
    /// as status 401, `NotFound` as 404, and both startup errors as 500,
    /// for every value of the taxonomy.
    pub proof fn lemma_status_mapping(&self)
        ensures
            (self is Forbidden || self is Unauthorized) <==> self.spec_status() == 401,
            self is NotFound <==> self.spec_status() == 404,
            (self is TelemetryInitError || self is LoggingInitError) <==> self.spec_status()
                == 500,
    {
    }

    /// The full response mapping: status and body together.
    pub fn into_response_parts(self) -> (r: (u16, String))
        ensures
            r.0 == self.spec_status(),
            r.1@ == self.spec_body(),
    {
        let status = self.status_code();
        let body = self.body_text();
        (status, body)
    }
}

} // verus!
