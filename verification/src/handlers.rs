//! The computational part of each request handler: what the service answers,
//! as plain status codes and bodies. The routing and the HTTP plumbing
//! around them live in the surrounding application.

use crate::error::Error;
use vstd::prelude::*;

verus! {

/// The liveness probe always answers 200, whatever the state of the
/// outbound client.
pub fn health_status() -> (r: u16)
    ensures
        r == 200,
{
    200
}

/// The echo endpoint answers 200 with the request body unchanged.
pub fn echo_response(body: Vec<u8>) -> (r: (u16, Vec<u8>))
    ensures
        r.0 == 200,
        r.1@ == body@,
{
    (200, body)
}

/// The static help text.
pub fn help_text() -> (r: &'static str)
    ensures
        r@ == "Endpoints: GET /health, POST /echo, GET /help, GET /metrics\n"@,
{
    "Endpoints: GET /health, POST /echo, GET /help, GET /metrics\n"
}

/// The fixed answer for an unmatched route: the not-found error rendered as
/// a response.
pub fn not_found_response() -> (r: (u16, String))
    ensures
        r.0 == 404,
        r.1@ == Error::NotFound.spec_body(),
{
    Error::NotFound.into_response_parts()
}

} // verus!
