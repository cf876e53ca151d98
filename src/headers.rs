//! Header decisions: which content types get rewritten, which response
//! headers no longer describe a decoded body, and which request headers the
//! upstream client recomputes.
use vstd::prelude::*;
use vstd::string::StringSliceAdditionalSpecFns;
use vstd::utf8::encode_utf8;

use crate::text::same_bytes;

verus! {

broadcast use vstd::utf8::group_utf8_lib;

#[verifier::external_type_specification]
#[verifier::external_body]
#[verifier::reject_recursive_types(T)]
pub struct ExHeaderMap<T>(axum::http::HeaderMap<T>);

#[verifier::external_type_specification]
#[verifier::external_body]
pub struct ExHeaderValue(axum::http::HeaderValue);

/// The values that a `HeaderMap` holds under each (lower-case) header name,
/// in the order in which they were added.
pub uninterp spec fn header_values(h: axum::http::HeaderMap) -> Map<Seq<char>, Seq<axum::http::HeaderValue>>;

/// The bytes of a header value.
pub uninterp spec fn value_bytes(v: axum::http::HeaderValue) -> Seq<u8>;

/// A header name in the normal form that `HeaderMap` looks up as it is:
/// lower-case letters, digits and dashes.
pub open spec fn plain_header_name(k: Seq<char>) -> bool {
    0 < k.len() <= 64 && forall|i: int|
        0 <= i < k.len() ==> ('a' <= #[trigger] k[i] <= 'z' || '0' <= k[i] <= '9' || k[i] == '-')
}

/// Bytes that `HeaderValue::to_str` accepts: visible ASCII and tabs.
pub open spec fn visible_ascii(b: Seq<u8>) -> bool {
    forall|i: int| 0 <= i < b.len() ==> (32 <= #[trigger] b[i] < 127 || b[i] == 9)
}

/// Relies on `HeaderMap::get`: the first value under the name, if any.
#[verifier::external_body]
fn first_value<'a>(h: &'a axum::http::HeaderMap, name: &str) -> (r: Option<&'a axum::http::HeaderValue>)
    requires
        plain_header_name(name@),
    ensures
        match r {
            Some(v) => header_values(*h).contains_key(name@) && header_values(*h)[name@].len() > 0
                && *v == header_values(*h)[name@][0],
            None => !header_values(*h).contains_key(name@) || header_values(*h)[name@].len() == 0,
        },
{
    h.get(name)
}

/// Relies on `HeaderValue::to_str`: the value as text, when it is visible ASCII.
#[verifier::external_body]
fn value_text(v: &axum::http::HeaderValue) -> (r: Option<&str>)
    ensures
        match r {
            Some(s) => visible_ascii(value_bytes(*v)) && s.spec_bytes() == value_bytes(*v),
            None => !visible_ascii(value_bytes(*v)),
        },
{
    v.to_str().ok()
}

/// Relies on `HeaderMap::remove`: drops every value under the name.
#[verifier::external_body]
fn drop_header(h: &mut axum::http::HeaderMap, name: &str)
    requires
        plain_header_name(name@),
    ensures
        header_values(*final(h)) == header_values(*old(h)).remove(name@),
{
    h.remove(name);
}

/// `needle` occurs in `hay`.
pub open spec fn contains_bytes(hay: Seq<u8>, needle: Seq<u8>) -> bool {
    exists|i: int| 0 <= i <= hay.len() - needle.len() && #[trigger] hay.subrange(i, i + needle.len()) == needle
}

fn occurs_at(hay: &[u8], needle: &[u8], at: usize) -> (r: bool)
    requires
        at + needle.len() <= hay.len(),
    ensures
        r == (hay@.subrange(at as int, at + needle.len()) == needle@),
{
    let mut j: usize = 0;
    while j < needle.len()
        invariant
            at + needle.len() <= hay.len(),
            j <= needle.len(),
            hay@.subrange(at as int, at + j) == needle@.take(j as int),
        decreases needle.len() - j,
    {
        if hay[at + j] != needle[j] {
            assert(hay@.subrange(at as int, at + needle.len())[j as int] != needle@[j as int]);
            return false;
        }
        assert(hay@.subrange(at as int, at + j + 1) =~= hay@.subrange(at as int, at + j).push(hay@[at + j]));
        assert(needle@.take(j + 1) =~= needle@.take(j as int).push(needle@[j as int]));
        j = j + 1;
    }
    assert(needle@.take(needle.len() as int) =~= needle@);
    true
}

fn find_bytes(hay: &[u8], needle: &[u8]) -> (r: bool)
    ensures
        r == contains_bytes(hay@, needle@),
{
    if needle.len() > hay.len() {
        return false;
    }
    let last = hay.len() - needle.len();
    let mut i: usize = 0;
    while i <= last
        invariant
            last + needle.len() == hay.len(),
            i <= last + 1,
            forall|k: int| 0 <= k < i ==> #[trigger] hay@.subrange(k, k + needle.len()) != needle@,
        decreases last + 1 - i,
    {
        if occurs_at(hay, needle, i) {
            return true;
        }
        if i == last {
            return false;
        }
        i = i + 1;
    }
    false
}

/// The first value under `name` is text that contains `needle`.
pub open spec fn header_mentions(h: axum::http::HeaderMap, name: Seq<char>, needle: Seq<char>) -> bool {
    let vs = header_values(h);
    vs.contains_key(name) && vs[name].len() > 0 && visible_ascii(value_bytes(vs[name][0]))
        && contains_bytes(value_bytes(vs[name][0]), encode_utf8(needle))
}

fn content_type_mentions(headers: &axum::http::HeaderMap, needle: &str) -> (r: bool)
    ensures
        r == header_mentions(*headers, "content-type"@, needle@),
{
    proof {
        reveal_strlit("content-type");
    }
    match first_value(headers, "content-type") {
        None => false,
        Some(v) => match value_text(v) {
            None => false,
            Some(text) => find_bytes(text.as_bytes(), needle.as_bytes()),
        },
    }
}

/// The request declares a JSON body.
pub fn is_json_request(headers: &axum::http::HeaderMap) -> (r: bool)
    ensures
        r == header_mentions(*headers, "content-type"@, "application/json"@),
{
    content_type_mentions(headers, "application/json")
}

/// The response declares a JSON body.
pub fn is_json_response(headers: &axum::http::HeaderMap) -> (r: bool)
    ensures
        r == header_mentions(*headers, "content-type"@, "application/json"@),
{
    content_type_mentions(headers, "application/json")
}

/// The response is a stream of server-sent events.
pub fn is_event_stream(headers: &axum::http::HeaderMap) -> (r: bool)
    ensures
        r == header_mentions(*headers, "content-type"@, "text/event-stream"@),
{
    content_type_mentions(headers, "text/event-stream")
}

/// The headers that describe the encoding of a body as the upstream sent it.
pub open spec fn encoding_headers() -> Set<Seq<char>> {
    set!["content-encoding"@, "transfer-encoding"@, "content-length"@]
}

/// Drops the headers that no longer hold once the body has been decoded:
/// `content-encoding`, `transfer-encoding` and `content-length`. Every other
/// header keeps all its values.
pub fn sanitize_response_headers(headers: &mut axum::http::HeaderMap)
    ensures
        header_values(*final(headers)) == header_values(*old(headers)).remove_keys(encoding_headers()),
        forall|k: Seq<char>| #[trigger]
            header_values(*final(headers)).contains_key(k) <==> header_values(*old(headers)).contains_key(k)
                && !encoding_headers().contains(k),
        forall|k: Seq<char>| #[trigger]
            header_values(*final(headers)).contains_key(k) ==> header_values(*final(headers))[k]
                == header_values(*old(headers))[k],
{
    proof {
        reveal_strlit("content-encoding");
        reveal_strlit("transfer-encoding");
        reveal_strlit("content-length");
    }
    let ghost h0 = header_values(*headers);
    drop_header(headers, "content-encoding");
    drop_header(headers, "transfer-encoding");
    drop_header(headers, "content-length");
    assert(header_values(*headers) =~= h0.remove_keys(encoding_headers()));
}

/// Request headers that are not sent upstream: `host`, `connection`,
/// `accept-encoding` and `content-length`, which the upstream client
/// recomputes for the new destination and body.
pub open spec fn dropped_request_header(name: Seq<char>) -> bool {
    name == "host"@ || name == "connection"@ || name == "accept-encoding"@ || name == "content-length"@
}

fn is_named(name: &str, lit: &str) -> (r: bool)
    ensures
        r == (name@ == lit@),
{
    let r = same_bytes(name.as_bytes(), lit.as_bytes());
    proof {
        if r {
            assert(decode_utf8_of(name@) == decode_utf8_of(lit@));
        }
    }
    r
}

spec fn decode_utf8_of(s: Seq<char>) -> Seq<char> {
    vstd::utf8::decode_utf8(encode_utf8(s))
}

/// Whether a request header goes on to the upstream server.
pub fn forward_request_header(name: &str) -> (r: bool)
    ensures
        r == !dropped_request_header(name@),
{
    !(is_named(name, "host") || is_named(name, "connection") || is_named(name, "accept-encoding")
        || is_named(name, "content-length"))
}

} // verus!
