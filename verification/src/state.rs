//! Process-wide application state: the shared outbound client, created once
//! at startup from the parsed command-line arguments.

use crate::https::{BuildError, ClientBuilder, ClientConfig, HttpsClient, spec_default_config};
use vstd::prelude::*;

verus! {

/// The recognized command-line arguments, as plain values.
#[derive(Debug, Clone, Copy, PartialEq, Eq, Structural)]
pub struct Args {
    /// Port to listen on.
    pub port: u16,
    /// Default global timeout in seconds.
    pub timeout: u64,
}

/// Shared application state, created once at startup and handed read-only to
/// every request handler.
pub struct State {
    pub client: HttpsClient,
}

impl Clone for State {
    /// A cheap copy for another request-handling context; the configuration
    /// the client records is unchanged.
    fn clone(&self) -> (r: Self)
        ensures
            r.client.config == self.client.config,
    {
        State { client: self.client.clone() }
    }
}

impl State {
    /// Build the startup state: an outbound client with the default
    /// configuration except for the connect timeout taken from the
    /// arguments. No certificate import happens here, so the only possible
    /// failure is the transport stack's.
    pub fn new(args: Args) -> (r: Result<State, BuildError>)
        ensures
            r matches Ok(s) ==> s.client.config == (ClientConfig {
                timeout_seconds: args.timeout,
                ..spec_default_config()
            }),
            r matches Err(e) ==> e == BuildError::TransportInit,
    {
        let builder = ClientBuilder::new().timeout(args.timeout);
        match builder.build(None) {
            Ok(client) => Ok(State { client }),
            Err(e) => Err(e),
        }
    }
}

} // verus!
