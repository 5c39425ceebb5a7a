//! The request executor: one authenticated, blocking HTTP GET against the
//! fixed base host, returning the complete response body as raw bytes. The
//! body comes back whatever the HTTP status was; interpreting it is the
//! caller's business. No retry, no retained state between calls.

use vstd::prelude::*;

use crate::endpoint::{rendered, Endpoint};

verus! {

/// curl's error type, carried through opaquely as the cause of a transport
/// failure.
#[verifier::external_type_specification]
#[verifier::external_body]
pub struct ExCurlError(curl::Error);

/// A transport-level failure — connection, resolution, TLS or header trouble
/// — carrying the underlying cause.
pub struct TransportError {
    pub cause: curl::Error,
}

/// The fixed scheme and host every request goes to.
pub open spec fn base_url() -> Seq<char> {
    "https://api.collegefootballdata.com/"@
}

/// The full URL of an endpoint: the fixed base, then the rendered endpoint.
pub fn request_url(endpoint: &Endpoint) -> (r: String)
    ensures
        r@ == base_url() + rendered(*endpoint),
{
    let mut url = String::from_str("https://api.collegefootballdata.com/");
    let rel = endpoint.render();
    url.append(rel.as_str());
    url
}

/// The authorization header carrying a bearer token.
pub fn bearer_header(api_key: &str) -> (r: String)
    ensures
        r@ == "Authorization: Bearer "@ + api_key@,
{
    let mut h = String::from_str("Authorization: Bearer ");
    h.append(api_key);
    h
}

/// Relies on curl's `Easy` handle: performs one blocking HTTP GET on `url`
/// with exactly the two given request headers and accumulates the whole
/// response body. Whether bytes or an error come back depends on the
/// network, so nothing is promised of the result.
#[verifier::external_body]
fn perform_get(url: &str, accept_header: &str, auth_header: &str) -> (r: Result<
    Vec<u8>,
    curl::Error,
>) {
    let mut body: Vec<u8> = Vec::new();
    let mut easy = curl::easy::Easy::new();
    easy.url(url)?;
    let mut headers = curl::easy::List::new();
    headers.append(accept_header)?;
    headers.append(auth_header)?;
    easy.http_headers(headers)?;
    let mut transfer = easy.transfer();
    transfer.write_function(|chunk| {
        body.extend_from_slice(chunk);
        Ok(chunk.len())
    })?;
    transfer.perform()?;
    drop(transfer);
    Ok(body)
}

/// Performs one authenticated GET for `endpoint` against the fixed base host
/// and returns the complete response body; any transport failure is returned
/// as the error.
pub fn get_data(endpoint: Endpoint, api_key: &str) -> (r: Result<Vec<u8>, TransportError>) {
    let url = request_url(&endpoint);
    let auth = bearer_header(api_key);
    match perform_get(url.as_str(), "accept: application/json", auth.as_str()) {
        Result::Ok(body) => Result::Ok(body),
        Result::Err(e) => Result::Err(TransportError { cause: e }),
    }
}

} // verus!
