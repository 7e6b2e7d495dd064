//! The outbound relay: what the caller is told once the upstream has, or has
//! not, answered.

use crate::json::{document, from_slice, pretty_text, to_string_pretty};
use crate::reply::{
    plain, serialize_fallback, undecodable_upstream, upstream_failed, Reply, ReplyView,
    STATUS_BAD_GATEWAY, STATUS_OK,
};
use vstd::prelude::*;

verus! {

/// Where every accepted document is sent, by HTTPS `POST`, as a JSON body.
pub const UPSTREAM_URL: &'static str = "https://postman-echo.com/post";

/// How one call of the upstream ended.
#[derive(Debug, PartialEq, Eq)]
pub enum UpstreamOutcome {
    /// The request could not be delivered or no response came back; the text
    /// is the transport's own account of the failure.
    Failed(String),
    /// A response came, but its body could not be read to the end.
    Unreadable,
    /// A response came, with this body. Its status is not looked at.
    Body(Vec<u8>),
}

/// The `200 OK` reply that carries the upstream's document: its pretty-printed
/// text, or a fixed sentence where the document cannot be written.
pub open spec fn rendered(value: serde_json::Value) -> ReplyView {
    plain(
        STATUS_OK,
        match pretty_text(value) {
            Some(text) => text,
            None => serialize_fallback(),
        },
    )
}

/// The reply owed for each outcome of the upstream call: `Ok` where the
/// upstream's JSON is passed on, `Err` where the relay answers for itself.
pub open spec fn relayed(outcome: UpstreamOutcome) -> Result<ReplyView, ReplyView> {
    match outcome {
        UpstreamOutcome::Failed(cause) => Err(upstream_failed(cause@)),
        UpstreamOutcome::Unreadable => Err(undecodable_upstream()),
        UpstreamOutcome::Body(bytes) => match document(bytes@) {
            Some(value) => Ok(rendered(value)),
            None => Err(undecodable_upstream()),
        },
    }
}

/// The view of a reply on either side of a `Result`.
pub open spec fn viewed(reply: Result<Reply, Reply>) -> Result<ReplyView, ReplyView> {
    match reply {
        Ok(passed) => Ok(passed@),
        Err(own) => Err(own@),
    }
}

/// `502 Bad Gateway` for an upstream that could not be reached.
pub fn failure_reply(cause: &str) -> (reply: Reply)
    ensures
        reply@ == upstream_failed(cause@),
{
    let mut body = "API request failed: ".to_owned();
    body.append(cause);
    Reply::with_body(STATUS_BAD_GATEWAY, body)
}

/// Settles what the printer's verdict on the upstream's document means.
/// Both ways the status is `200 OK`: a document that cannot be written is
/// answered with a fixed sentence, not with an error status.
pub fn success_reply(written: Result<String, serde_json::Error>) -> (reply: Reply)
    ensures
        match written {
            Ok(text) => reply@ == plain(STATUS_OK, text@),
            Err(_) => reply@ == plain(STATUS_OK, serialize_fallback()),
        },
{
    match written {
        Ok(text) => Reply::with_body(STATUS_OK, text),
        Err(_) => Reply::text(STATUS_OK, "Failed to serialize response"),
    }
}

/// Settles what the parser's verdict on the upstream's body means: a document
/// is printed and passed on, a refusal becomes `502 Bad Gateway`.
pub fn decoded_reply(parsed: Result<serde_json::Value, serde_json::Error>) -> (reply: Result<
    Reply,
    Reply,
>)
    ensures
        match parsed {
            Ok(value) => viewed(reply) == Ok::<ReplyView, ReplyView>(rendered(value)),
            Err(_) => viewed(reply) == Err::<ReplyView, ReplyView>(undecodable_upstream()),
        },
{
    match parsed {
        Ok(value) => Ok(success_reply(to_string_pretty(&value))),
        Err(_) => Err(Reply::text(STATUS_BAD_GATEWAY, "Failed to decode API response")),
    }
}

/// Shapes the final reply from the outcome of the upstream call.
pub fn forward_to_external_api(outcome: UpstreamOutcome) -> (reply: Result<Reply, Reply>)
    ensures
        viewed(reply) == relayed(outcome),
{
    match outcome {
        UpstreamOutcome::Failed(cause) => Err(failure_reply(cause.as_str())),
        UpstreamOutcome::Unreadable => Err(
            Reply::text(STATUS_BAD_GATEWAY, "Failed to decode API response"),
        ),
        UpstreamOutcome::Body(bytes) => decoded_reply(from_slice(bytes.as_slice())),
    }
}

} // verus!
