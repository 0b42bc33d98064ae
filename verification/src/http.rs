//! The HTTP adaptor surface.
//!
//! Canister A answers HTTP traffic with fixed responses: a query-path answer
//! that asks the gateway to upgrade the call to an update, and an
//! update-path answer that refuses the request. Wire encoding and transport
//! live outside the engine; these types carry the decoded shape only.

use vstd::prelude::*;
use vstd::string::StringExecFns;

verus! {

/// The important components of an HTTP request.
pub struct HttpRequest {
    /// The HTTP method string.
    pub method: String,
    /// The URL that was visited.
    pub url: String,
    /// The request headers.
    pub headers: Vec<(String, String)>,
    /// The request body.
    pub body: Vec<u8>,
}

/// A HTTP response.
pub struct HttpResponse {
    /// The HTTP status code.
    pub status_code: u16,
    /// The response header map.
    pub headers: Vec<(String, String)>,
    /// The response body.
    pub body: Vec<u8>,
    /// Whether the query call should be upgraded to an update call.
    pub upgrade: Option<bool>,
}

/// Handles an HTTP request on the query path: no content, one custom header,
/// and the upgrade flag set, so the gateway re-delivers the call as an
/// update.
pub fn http_request(_request: &HttpRequest) -> (response: HttpResponse)
    ensures
        response.status_code == 204,
        response.headers@.len() == 1,
        response.headers@[0].0@ == "custom_header"@,
        response.headers@[0].1@ == "custom_value"@,
        response.body@ == seq![1u8, 2u8, 3u8, 4u8],
        response.upgrade == Some(true),
{
    let mut headers: Vec<(String, String)> = Vec::new();
    headers.push((String::from_str("custom_header"), String::from_str("custom_value")));
    let mut body: Vec<u8> = Vec::new();
    body.push(1);
    body.push(2);
    body.push(3);
    body.push(4);
    proof {
        assert(body@ =~= seq![1u8, 2u8, 3u8, 4u8]);
    }
    HttpResponse { status_code: 204, headers, body, upgrade: Some(true) }
}

/// Handles an HTTP request after the upgrade to an update call: a bad
/// request with nothing in it.
pub fn http_request_update(_request: &HttpRequest) -> (response: HttpResponse)
    ensures
        response.status_code == 400,
        response.headers@.len() == 0,
        response.body@.len() == 0,
        response.upgrade is None,
{
    HttpResponse { status_code: 400, headers: Vec::new(), body: Vec::new(), upgrade: None }
}

} // verus!
