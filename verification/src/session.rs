//! The session builder's decisions: which endpoint URL, if any, to set
//! on the client, and the connectivity check that `connect` and
//! `test_connection` share.

use vstd::prelude::*;
use vstd::string::*;
use crate::types::{opt_seq, S3Config};

verus! {

/// The provider's default public endpoint host.
pub open spec fn default_endpoint() -> Seq<char> {
    "s3.amazonaws.com"@
}

/// The endpoint URL override a configuration asks for: none when the
/// endpoint is empty or is the provider's default host, else the host
/// behind the scheme the TLS flag picks.
pub open spec fn spec_endpoint_url(endpoint: Seq<char>, use_ssl: bool) -> Option<Seq<char>> {
    if endpoint.len() == 0 || endpoint == default_endpoint() {
        Option::None
    } else if use_ssl {
        Option::Some("https://"@ + endpoint)
    } else {
        Option::Some("http://"@ + endpoint)
    }
}

/// The client settings a configuration resolves to, ready to hand to
/// the transport layer.
pub struct SessionPlan {
    pub endpoint_url: Option<String>,
    pub region: String,
    pub path_style: bool,
}

/// Resolve a configuration into client settings: the region is carried
/// unchanged, path-style addressing is applied exactly when asked for,
/// and the endpoint URL override follows `spec_endpoint_url`.
pub fn session_plan(config: &S3Config) -> (r: SessionPlan)
    ensures
        r.region@ == config.region@,
        r.path_style == config.path_style,
        opt_seq(r.endpoint_url) == spec_endpoint_url(config.endpoint@, config.use_ssl),
{
    let default_host = String::from_str("s3.amazonaws.com");
    let endpoint_url: Option<String> = if config.endpoint.as_str().is_empty() || config.endpoint
        == default_host {
        None
    } else if config.use_ssl {
        Some(String::from_str("https://").concat(config.endpoint.as_str()))
    } else {
        Some(String::from_str("http://").concat(config.endpoint.as_str()))
    };
    SessionPlan { endpoint_url, region: config.region.clone(), path_style: config.path_style }
}

/// The verdict `test_connection` draws from one bucket-enumeration
/// round trip: success means connected, failure carries the transport's
/// message behind a fixed prefix.
pub open spec fn spec_test_connection(outcome: Result<(), Seq<char>>) -> Result<bool, Seq<char>> {
    match outcome {
        Result::Ok(_) => Result::Ok(true),
        Result::Err(e) => Result::Err("Connection failed: "@ + e),
    }
}

/// The verdict `connect` draws from the same round trip.
pub open spec fn spec_connect(outcome: Result<(), Seq<char>>) -> Result<bool, Seq<char>> {
    match outcome {
        Result::Ok(_) => Result::Ok(true),
        Result::Err(e) => Result::Err("Connection failed: "@ + e),
    }
}

/// Interpret the outcome of the connectivity round trip.
pub fn test_connection(outcome: Result<(), String>) -> (r: Result<bool, String>)
    ensures
        result_model(r) == spec_test_connection(outcome_model(outcome)),
{
    match outcome {
        Ok(_) => Ok(true),
        Err(e) => Err(String::from_str("Connection failed: ").concat(e.as_str())),
    }
}

/// `connect` gives the same verdict as `test_connection`: both are one
/// bucket-enumeration round trip read as a boolean.
pub fn connect_to_s3(outcome: Result<(), String>) -> (r: Result<bool, String>)
    ensures
        result_model(r) == spec_connect(outcome_model(outcome)),
{
    match test_connection(outcome) {
        Ok(b) => Ok(b),
        Err(e) => Err(e),
    }
}

/// The model of a round-trip outcome.
pub open spec fn outcome_model(o: Result<(), String>) -> Result<(), Seq<char>> {
    match o {
        Result::Ok(_) => Result::Ok(()),
        Result::Err(e) => Result::Err(e@),
    }
}

/// The model of a connectivity verdict.
pub open spec fn result_model(r: Result<bool, String>) -> Result<bool, Seq<char>> {
    match r {
        Result::Ok(b) => Result::Ok(b),
        Result::Err(e) => Result::Err(e@),
    }
}

/// For every outcome of the shared round trip, `connect` and
/// `test_connection` give the same verdict.
pub proof fn lemma_connect_equals_test_connection(outcome: Result<(), Seq<char>>)
    ensures
        spec_connect(outcome) == spec_test_connection(outcome),
{
}

} // verus!
