//! The decisions of the proxy around one request: where it goes, which body
//! is sent on in each direction, and which status a transport failure gives.
use vstd::prelude::*;
use vstd::string::StringExecFns;

use crate::headers::{header_mentions, is_json_request, is_json_response};
use crate::json::parse_json;
use crate::patch::{fix_request_body, fix_response_body, request_rewrite, response_rewrite};

verus! {

/// The text without any trailing `c`.
pub open spec fn trim_trailing(s: Seq<char>, c: char) -> Seq<char>
    decreases s.len(),
{
    if s.len() > 0 && s.last() == c {
        trim_trailing(s.drop_last(), c)
    } else {
        s
    }
}

/// Relies on `str::trim_end_matches` with a `char` pattern.
#[verifier::external_body]
fn without_trailing(s: &str, c: char) -> (r: &str)
    ensures
        r@ == trim_trailing(s@, c),
{
    s.trim_end_matches(c)
}

/// The upstream address of a request: the base without trailing slashes,
/// then the path, then `?` and the query where there is one.
pub open spec fn upstream_address(base: Seq<char>, path: Seq<char>, query: Seq<char>) -> Seq<char> {
    let url = trim_trailing(base, '/') + path;
    if query.len() == 0 {
        url
    } else {
        url + seq!['?'] + query
    }
}

/// Builds the upstream address of a request.
pub fn upstream_url(base: &str, path: &str, query: &str) -> (r: String)
    ensures
        r@ == upstream_address(base@, path@, query@),
{
    let mut url = String::from_str(without_trailing(base, '/'));
    url.append(path);
    if !query.is_empty() {
        url.append("?");
        proof {
            reveal_strlit("?");
        }
        url.append(query);
    }
    url
}

/// The request body sent upstream: for a non-empty body declared as JSON,
/// the rewritten body; otherwise, and wherever the rewrite fails, the body
/// as received. The flag says that the rewrite was tried and failed.
pub fn request_body_to_forward(headers: &axum::http::HeaderMap, body: Vec<u8>) -> (r: (
    Vec<u8>,
    bool,
))
    ensures
        if body@.len() > 0 && header_mentions(*headers, "content-type"@, "application/json"@) {
            match request_rewrite(body@) {
                Ok(out) => r.0@ == out && !r.1,
                Err(_) => r.0@ == body@ && r.1,
            }
        } else {
            r.0@ == body@ && !r.1
        },
        parse_json(body@) is None ==> r.0@ == body@,
{
    if body.len() > 0 && is_json_request(headers) {
        match fix_request_body(body.as_slice()) {
            Ok(fixed) => (fixed, false),
            Err(_) => (body, true),
        }
    } else {
        (body, false)
    }
}

/// The body of a complete (not streamed) response sent to the client: for a
/// body declared as JSON, the rewritten body; otherwise, and wherever the
/// rewrite fails, the body as received.
pub fn response_body_to_send(headers: &axum::http::HeaderMap, body: Vec<u8>) -> (r: Vec<u8>)
    ensures
        r@ == if header_mentions(*headers, "content-type"@, "application/json"@) {
            match response_rewrite(body@) {
                Ok(out) => out,
                Err(_) => body@,
            }
        } else {
            body@
        },
{
    if is_json_response(headers) {
        match fix_response_body(body.as_slice()) {
            Ok(fixed) => fixed,
            Err(_) => body,
        }
    } else {
        body
    }
}

/// A transport failure while proxying one request.
#[derive(Debug, Clone, Copy, PartialEq, Eq, Structural)]
pub enum ProxyError {
    /// The client's request body could not be read.
    ClientBodyRead,
    /// The upstream server could not be reached or the request not sent.
    UpstreamSend,
    /// The upstream response body could not be read.
    UpstreamBodyRead,
}

impl ProxyError {
    /// The HTTP status that the client gets for the failure.
    pub open spec fn status_spec(self) -> u16 {
        match self {
            ProxyError::ClientBodyRead => 400,
            ProxyError::UpstreamSend => 502,
            ProxyError::UpstreamBodyRead => 502,
        }
    }

    /// The HTTP status that the client gets for the failure: 400 for an
    /// unreadable request, 502 for a failure on the upstream side.
    pub fn status_code(&self) -> (r: u16)
        ensures
            r == self.status_spec(),
    {
        match self {
            ProxyError::ClientBodyRead => 400,
            ProxyError::UpstreamSend => 502,
            ProxyError::UpstreamBodyRead => 502,
        }
    }
}

} // verus!
