//! Collector endpoint and service-name configuration.
//!
//! The caller hands in whatever was configured in its environment (or
//! nothing); the functions here apply the fixed fallbacks and derive the
//! per-signal export URLs by appending the fixed path suffixes.

use vstd::prelude::*;
use vstd::string::StringExecFns;

verus! {

/// The collector base URL used when none is configured.
pub open spec fn default_endpoint() -> Seq<char> {
    "http://localhost:4318"@
}

/// The service name used when none is configured.
pub open spec fn default_service_name() -> Seq<char> {
    "rust-example"@
}

/// The three signal kinds the service exports.
#[derive(Clone, Copy, PartialEq, Eq, Structural, Debug)]
pub enum Signal {
    Traces,
    Metrics,
    Logs,
}

/// The fixed path suffix appended to the collector base URL for a signal.
pub open spec fn signal_suffix(s: Signal) -> Seq<char> {
    match s {
        Signal::Traces => "/v1/traces"@,
        Signal::Metrics => "/v1/metrics"@,
        Signal::Logs => "/v1/logs"@,
    }
}

/// Resolve the collector base URL: the configured value stands unless it
/// is absent or empty, in which case the fixed default is used.
pub fn resolve_endpoint(configured: Option<String>) -> (r: String)
    ensures
        r@ == (match configured {
            Option::Some(s) => if s@.len() == 0 {
                default_endpoint()
            } else {
                s@
            },
            Option::None => default_endpoint(),
        }),
{
    match configured {
        Option::Some(s) => {
            if s.as_str().is_empty() {
                "http://localhost:4318".to_owned()
            } else {
                s
            }
        },
        Option::None => "http://localhost:4318".to_owned(),
    }
}

/// Resolve the service name: a configured value stands as it is, even
/// when empty; only an absent one falls back to the fixed default.
pub fn resolve_service_name(configured: Option<String>) -> (r: String)
    ensures
        r@ == (match configured {
            Option::Some(s) => s@,
            Option::None => default_service_name(),
        }),
{
    match configured {
        Option::Some(s) => s,
        Option::None => "rust-example".to_owned(),
    }
}

/// The fixed path suffix for a signal, as a string slice.
pub fn signal_path(s: Signal) -> (r: &'static str)
    ensures
        r@ == signal_suffix(s),
{
    match s {
        Signal::Traces => "/v1/traces",
        Signal::Metrics => "/v1/metrics",
        Signal::Logs => "/v1/logs",
    }
}

/// The full export URL for one signal: the base URL with the signal's
/// fixed suffix appended.
pub fn signal_url(base: &str, s: Signal) -> (r: String)
    ensures
        r@ == base@ + signal_suffix(s),
{
    let b = base.to_owned();
    b.concat(signal_path(s))
}

} // verus!
