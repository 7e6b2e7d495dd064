//! The inbound gate: which requests are let through, and what the others are
//! told.

use crate::json::{document, from_slice};
use crate::reply::{
    invalid_json, unreadable_body, Reply, STATUS_BAD_REQUEST,
};
use vstd::prelude::*;
use vstd::string::StringSliceAdditionalSpecFns;
use vstd::utf8::encode_utf8_decode_utf8;

verus! {

/// What is known of a request before its body is read: the method as the
/// request line spells it, the path of the target without its query, and the
/// bytes of the first `Content-Type` header, if there is one.
#[derive(Debug, PartialEq, Eq)]
pub struct RequestHead {
    pub method: String,
    pub path: String,
    pub content_type: Option<Vec<u8>>,
}

/// The request is a `POST` to `/hello`. Both are compared as written: `post`
/// is another method, `/hello/` another path.
pub open spec fn is_relay_route(head: RequestHead) -> bool {
    head.method@ == "POST"@ && head.path@ == "/hello"@
}

/// The content type is `application/json`, byte for byte. A parameter, other
/// letter case or surrounding space makes it another value.
pub open spec fn declares_json(head: RequestHead) -> bool {
    head.content_type matches Some(value) && value@ == "application/json".spec_bytes()
}

/// Whether two byte strings are the same.
fn same_bytes(left: &[u8], right: &[u8]) -> (same: bool)
    ensures
        same == (left@ == right@),
{
    if left.len() != right.len() {
        return false;
    }
    let mut at: usize = 0;
    while at < left.len()
        invariant
            left@.len() == right@.len(),
            at <= left@.len(),
            forall|k: int| 0 <= k < at ==> left@[k] == right@[k],
        decreases left@.len() - at,
    {
        if left[at] != right[at] {
            return false;
        }
        at += 1;
    }
    assert(left@ =~= right@);
    true
}

/// Whether two texts are the same, character for character.
fn same_text(left: &str, right: &str) -> (same: bool)
    ensures
        same == (left@ == right@),
{
    proof {
        encode_utf8_decode_utf8(left@);
        encode_utf8_decode_utf8(right@);
    }
    same_bytes(left.as_bytes(), right.as_bytes())
}

/// Whether the request names the one route of the relay.
pub fn names_relay_route(head: &RequestHead) -> (named: bool)
    ensures
        named == is_relay_route(*head),
{
    same_text(head.method.as_str(), "POST") && same_text(head.path.as_str(), "/hello")
}

/// Whether the request says that its body is JSON.
pub fn is_json_content_type(head: &RequestHead) -> (json: bool)
    ensures
        json == declares_json(*head),
{
    match &head.content_type {
        Some(value) => same_bytes(value.as_slice(), "application/json".as_bytes()),
        None => false,
    }
}

/// Settles what a finished read of the request body means: `read` is the
/// whole body, or `None` where the transport failed before its end. A body
/// of any length is taken.
pub fn read_body(read: Option<Vec<u8>>) -> (body: Result<Vec<u8>, Reply>)
    ensures
        match read {
            Some(bytes) => body == Ok::<Vec<u8>, Reply>(bytes),
            None => body matches Err(reply) && reply@ == unreadable_body(),
        },
{
    match read {
        Some(bytes) => Ok(bytes),
        None => Err(Reply::text(STATUS_BAD_REQUEST, "Failed to read body")),
    }
}

/// Settles what the parser's verdict on the request body means: the document
/// goes on as it is, a refusal becomes `400 Bad Request`, whatever its reason.
pub fn accept_document(parsed: Result<serde_json::Value, serde_json::Error>) -> (payload: Result<
    serde_json::Value,
    Reply,
>)
    ensures
        match parsed {
            Ok(value) => payload == Ok::<serde_json::Value, Reply>(value),
            Err(_) => payload matches Err(reply) && reply@ == invalid_json(),
        },
{
    match parsed {
        Ok(value) => Ok(value),
        Err(_) => Err(Reply::text(STATUS_BAD_REQUEST, "Invalid JSON format")),
    }
}

/// Parses the request body as one JSON document of any shape: object, array
/// or scalar. No field is looked at.
pub fn parse_json(body: &[u8]) -> (payload: Result<serde_json::Value, Reply>)
    ensures
        match document(body@) {
            Some(value) => payload == Ok::<serde_json::Value, Reply>(value),
            None => payload matches Err(reply) && reply@ == invalid_json(),
        },
{
    accept_document(from_slice(body))
}

} // verus!
