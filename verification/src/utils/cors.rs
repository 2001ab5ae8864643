//! The answer to a preflight request.

use vstd::prelude::*;
use crate::config::Config;
use crate::response::{ProxyResponse, ProxyResponseView, OK};

verus! {

/// The headers that answer a preflight request from the configured origin.
pub open spec fn preflight_headers(origin: Seq<char>) -> Seq<(Seq<char>, Seq<char>)> {
    seq![
        ("content-type"@, "application/json"@),
        ("Access-Control-Allow-Origin"@, origin),
        ("Access-Control-Allow-Methods"@, "POST, GET, OPTIONS"@),
        ("Access-Control-Allow-Headers"@, "*"@),
        ("Access-Control-Allow-Credentials"@, "true"@),
    ]
}

/// The answer to a preflight request: success, an empty body, and the
/// headers that admit the origin with its credentials.
pub open spec fn preflight_response(origin: Seq<char>) -> ProxyResponseView {
    ProxyResponseView {
        status_code: 200,
        headers: preflight_headers(origin),
        multi_value_headers: preflight_headers(origin),
        body: Some(Seq::empty()),
        is_base64_encoded: false,
    }
}

/// The answer to a preflight request.
pub fn cors(config: &Config) -> (response: ProxyResponse)
    ensures
        response.deep_view() == preflight_response(config.frontend_base_url@),
{
    let headers = preflight(config.frontend_base_url.as_str());
    let multi_value_headers = preflight(config.frontend_base_url.as_str());
    ProxyResponse {
        status_code: OK as i64,
        headers,
        multi_value_headers,
        body: Some(String::new()),
        is_base64_encoded: false,
    }
}

fn preflight(origin: &str) -> (headers: Vec<(String, String)>)
    ensures
        headers.deep_view() == preflight_headers(origin@),
{
    let mut headers: Vec<(String, String)> = Vec::new();
    headers.push(("content-type".to_owned(), "application/json".to_owned()));
    headers.push(("Access-Control-Allow-Origin".to_owned(), origin.to_owned()));
    headers.push(("Access-Control-Allow-Methods".to_owned(), "POST, GET, OPTIONS".to_owned()));
    headers.push(("Access-Control-Allow-Headers".to_owned(), "*".to_owned()));
    headers.push(("Access-Control-Allow-Credentials".to_owned(), "true".to_owned()));
    assert(headers.deep_view() =~= preflight_headers(origin@));
    headers
}

} // verus!
