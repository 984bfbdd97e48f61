//! The address of the service's websocket endpoint.

use vstd::prelude::*;
use vstd::string::*;
use crate::query::{decimal, to_decimal};

verus! {

#[verifier::external_type_specification]
#[verifier::external_body]
pub struct ExUri(http::Uri);

#[verifier::external_type_specification]
#[verifier::external_body]
pub struct ExInvalidUri(http::uri::InvalidUri);

/// The websocket URL of the service at `host` and `port`.
pub open spec fn endpoint_url(host: Seq<char>, port: u16) -> Seq<char> {
    "ws://"@ + host + ":"@ + decimal(port as nat) + "/api/websocket"@
}

/// The websocket URL of the service at `host` and `port`.
pub fn websocket_url(host: &str, port: u16) -> (r: String)
    ensures
        r@ == endpoint_url(host@, port),
{
    let mut r = String::from_str("ws://");
    r.append(host);
    r.append(":");
    let digits = to_decimal(port as u64);
    r.append(digits.as_str());
    r.append("/api/websocket");
    r
}

/// Relies on http::Uri's `FromStr`, which parses a URI reference; whether
/// the text is accepted is left to it.
#[verifier::external_body]
fn parse_uri(s: &str) -> (r: Result<http::Uri, http::uri::InvalidUri>) {
    <http::Uri as std::str::FromStr>::from_str(s)
}

/// The parsed websocket URI of the service at `host` and `port`.
pub fn websocket_uri(host: &str, port: u16) -> (r: Result<http::Uri, http::uri::InvalidUri>) {
    let url = websocket_url(host, port);
    parse_uri(url.as_str())
}

} // verus!
