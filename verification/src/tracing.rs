//! Telemetry bootstrap decisions: the log-filter directive string, the
//! verbosity defaulting, and the install-once lifecycle of the process-wide
//! subscriber. Reading the environment and wiring the subscriber layers is
//! the surrounding application's work; what is decided about them is here.

use crate::error::Error;
use vstd::prelude::*;
use vstd::string::StringExecFns;

verus! {

/// The full filter directive string for a base verbosity `rust_log` and a
/// per-module telemetry verbosity `otel`.
pub open spec fn spec_filter_directives(rust_log: Seq<char>, otel: Seq<char>) -> Seq<char> {
    rust_log + ",otel::tracing=trace,otel=debug,registry::handlers="@ + otel
        + ",reqwest_tracing::reqwest_otel_span_builder="@ + otel + ",registry::cache="@ + otel
        + ",registry::versions="@ + otel
}

/// A configured verbosity, or `info` where none was given.
pub fn level_or_default(value: Option<String>) -> (r: String)
    ensures
        value matches Some(s) ==> r == s,
        value is None ==> r@ == "info"@,
{
    match value {
        Some(s) => s,
        None => "info".to_string(),
    }
}

/// The log-filter directive string: the base verbosity first, then the
/// fixed per-module overrides, with the telemetry verbosity filled in for
/// each of the four configurable modules.
pub fn log_filter_directives(rust_log: &str, otel_level: &str) -> (r: String)
    ensures
        r@ == spec_filter_directives(rust_log@, otel_level@),
{
    let mut s = rust_log.to_string();
    s.append(",otel::tracing=trace,otel=debug,registry::handlers=");
    s.append(otel_level);
    s.append(",reqwest_tracing::reqwest_otel_span_builder=");
    s.append(otel_level);
    s.append(",registry::cache=");
    s.append(otel_level);
    s.append(",registry::versions=");
    s.append(otel_level);
    proof {
        assert(s@ =~= spec_filter_directives(rust_log@, otel_level@));
    }
    s
}

/// The install-once lifecycle of the process-wide tracing subscriber: it is
/// installed at most once, and a second attempt fails instead of silently
/// replacing the first.
pub struct TelemetryInit {
    pub installed: bool,
}

impl TelemetryInit {
    /// The state at process start: nothing installed yet.
    pub fn new() -> (r: Self)
        ensures
            !r.installed,
    {
        TelemetryInit { installed: false }
    }

    /// Claim the one install. The first call succeeds and freezes the
    /// state; every later call fails with a logging-init error and changes
    /// nothing more.
    pub fn install(&mut self) -> (r: Result<(), Error>)
        ensures
            final(self).installed,
            !old(self).installed ==> r is Ok,
            old(self).installed ==> (r matches Err(e) && e matches Error::LoggingInitError(m)
                && m@ == "global tracing subscriber already installed"@),
    {
        if self.installed {
            Err(Error::LoggingInitError("global tracing subscriber already installed".to_string()))
        } else {
            self.installed = true;
            Ok(())
        }
    }
}

} // verus!
