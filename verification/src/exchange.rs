//! One exchange, from the request line to the reply.
//!
//! The relay never touches a socket. It is asked three times at most: when
//! the head of a request has arrived, when its body has been read, and when
//! the upstream has answered. Each answer is a [`Step`] for the caller to
//! perform. Nothing is kept between the questions, nor between exchanges.

use crate::gate::{
    declares_json, is_json_content_type, is_relay_route, names_relay_route, parse_json,
    read_body, RequestHead,
};
use crate::json::{document, pretty_text};
use crate::relay::{forward_to_external_api, relayed, rendered, UpstreamOutcome};
use crate::reply::{
    invalid_json, is_terminal_status, not_found, undecodable_upstream, unreadable_body,
    unsupported_media_type, upstream_failed, Reply, ReplyView, STATUS_BAD_GATEWAY,
    STATUS_BAD_REQUEST, STATUS_NOT_FOUND, STATUS_OK, STATUS_UNSUPPORTED_MEDIA_TYPE,
};
use vstd::prelude::*;

verus! {

/// What the caller is to do next.
#[derive(Debug, PartialEq, Eq)]
pub enum Step {
    /// Read the whole request body, then ask [`handle_body`].
    ReadBody,
    /// Send this document to the upstream, then ask [`handle_upstream`].
    Forward(serde_json::Value),
    /// Send this reply; the exchange is over.
    Respond(Reply),
}

/// What a [`Step`] is, with the reply taken by its view.
pub enum StepView {
    ReadBody,
    Forward(serde_json::Value),
    Respond(ReplyView),
}

impl View for Step {
    type V = StepView;

    open spec fn view(&self) -> StepView {
        match *self {
            Step::ReadBody => StepView::ReadBody,
            Step::Forward(value) => StepView::Forward(value),
            Step::Respond(reply) => StepView::Respond(reply@),
        }
    }
}

/// The step owed once the head of a request is known: the route is looked at
/// first, the content type second.
pub open spec fn on_request(head: RequestHead) -> StepView {
    if !is_relay_route(head) {
        StepView::Respond(not_found())
    } else if !declares_json(head) {
        StepView::Respond(unsupported_media_type())
    } else {
        StepView::ReadBody
    }
}

/// What the body of a request comes to: the document to forward, or the
/// reply that ends the exchange. `read` is the whole body, or `None` for a
/// failed read.
pub open spec fn payload(read: Option<Vec<u8>>) -> Result<serde_json::Value, ReplyView> {
    match read {
        None => Err(unreadable_body()),
        Some(bytes) => match document(bytes@) {
            Some(value) => Ok(value),
            None => Err(invalid_json()),
        },
    }
}

/// The step owed once the read of the body has ended.
pub open spec fn on_body(read: Option<Vec<u8>>) -> StepView {
    match payload(read) {
        Ok(value) => StepView::Forward(value),
        Err(reply) => StepView::Respond(reply),
    }
}

/// The reply owed once the upstream call has ended.
pub open spec fn on_upstream(outcome: UpstreamOutcome) -> ReplyView {
    match relayed(outcome) {
        Ok(passed) => passed,
        Err(own) => own,
    }
}

/// The reply in which an exchange ends, given the request's head, how the
/// read of its body ends, and how the upstream answers each document.
pub open spec fn exchange_reply(
    head: RequestHead,
    read: Option<Vec<u8>>,
    upstream: spec_fn(serde_json::Value) -> UpstreamOutcome,
) -> ReplyView {
    if !is_relay_route(head) {
        not_found()
    } else if !declares_json(head) {
        unsupported_media_type()
    } else {
        match payload(read) {
            Err(reply) => reply,
            Ok(value) => on_upstream(upstream(value)),
        }
    }
}

/// Decides on a request from its head alone: anything but `POST /hello` is
/// `404 Not Found`, another content type than `application/json` is
/// `415 Unsupported Media Type`, and the rest has its body read.
pub fn handle_request(head: &RequestHead) -> (step: Step)
    ensures
        step@ == on_request(*head),
{
    if names_relay_route(head) {
        if !is_json_content_type(head) {
            return Step::Respond(
                Reply::text(STATUS_UNSUPPORTED_MEDIA_TYPE, "Expected application/json"),
            );
        }
        Step::ReadBody
    } else {
        Step::Respond(Reply::text(STATUS_NOT_FOUND, "Not Found"))
    }
}

/// Decides on a request whose body has been read: a failed read and a body
/// that is not JSON are each `400 Bad Request`, and a document is forwarded
/// as it was parsed.
pub fn handle_body(read: Option<Vec<u8>>) -> (step: Step)
    ensures
        step@ == on_body(read),
{
    let body = match read_body(read) {
        Ok(bytes) => bytes,
        Err(reply) => {
            return Step::Respond(reply);
        },
    };
    match parse_json(body.as_slice()) {
        Ok(value) => Step::Forward(value),
        Err(reply) => Step::Respond(reply),
    }
}

/// Ends the exchange once the upstream call has ended, whichever way.
pub fn handle_upstream(outcome: UpstreamOutcome) -> (reply: Reply)
    ensures
        reply@ == on_upstream(outcome),
{
    match forward_to_external_api(outcome) {
        Ok(passed) => passed,
        Err(own) => own,
    }
}

/// A request whose body is JSON, sent to `POST /hello` as
/// `application/json` and answered by the upstream with JSON, ends in
/// `200 OK`, and the body of the reply is the upstream's document as the
/// printer writes it.
pub proof fn law_upstream_document_is_relayed(
    head: RequestHead,
    body: Vec<u8>,
    upstream: spec_fn(serde_json::Value) -> UpstreamOutcome,
    answer: Vec<u8>,
)
    requires
        is_relay_route(head),
        declares_json(head),
        document(body@) is Some,
        upstream(document(body@).unwrap()) == UpstreamOutcome::Body(answer),
        document(answer@) is Some,
    ensures
        exchange_reply(head, Some(body), upstream).status == STATUS_OK,
        exchange_reply(head, Some(body), upstream) == rendered(document(answer@).unwrap()),
        pretty_text(document(answer@).unwrap()) matches Some(text) ==> exchange_reply(
            head,
            Some(body),
            upstream,
        ).body == text,
{
}

/// A request with another path than `/hello`, or another method than `POST`,
/// ends in `404 Not Found`, whatever else it holds.
pub proof fn law_other_routes_are_not_found(
    head: RequestHead,
    read: Option<Vec<u8>>,
    upstream: spec_fn(serde_json::Value) -> UpstreamOutcome,
)
    requires
        head.path@ != "/hello"@ || head.method@ != "POST"@,
    ensures
        on_request(head) == StepView::Respond(not_found()),
        exchange_reply(head, read, upstream).status == STATUS_NOT_FOUND,
{
}

/// A `POST /hello` without a content type, or with another one than
/// `application/json`, ends in `415 Unsupported Media Type`.
pub proof fn law_content_type_is_required(
    head: RequestHead,
    read: Option<Vec<u8>>,
    upstream: spec_fn(serde_json::Value) -> UpstreamOutcome,
)
    requires
        is_relay_route(head),
        !declares_json(head),
    ensures
        on_request(head) == StepView::Respond(unsupported_media_type()),
        exchange_reply(head, read, upstream).status == STATUS_UNSUPPORTED_MEDIA_TYPE,
{
}

/// A `POST /hello` with the right content type and a body that is not JSON
/// ends in `400 Bad Request` with the message "Invalid JSON format".
pub proof fn law_invalid_json_is_bad_request(
    head: RequestHead,
    body: Vec<u8>,
    upstream: spec_fn(serde_json::Value) -> UpstreamOutcome,
)
    requires
        is_relay_route(head),
        declares_json(head),
        document(body@) is None,
    ensures
        on_body(Some(body)) == StepView::Respond(invalid_json()),
        exchange_reply(head, Some(body), upstream).status == STATUS_BAD_REQUEST,
        exchange_reply(head, Some(body), upstream).body == "Invalid JSON format"@,
{
}

/// When the upstream cannot be reached, the exchange ends in
/// `502 Bad Gateway`, and the message is "API request failed: " followed by
/// the cause.
pub proof fn law_unreachable_upstream_is_bad_gateway(
    head: RequestHead,
    body: Vec<u8>,
    upstream: spec_fn(serde_json::Value) -> UpstreamOutcome,
    cause: String,
)
    requires
        is_relay_route(head),
        declares_json(head),
        document(body@) is Some,
        upstream(document(body@).unwrap()) == UpstreamOutcome::Failed(cause),
    ensures
        exchange_reply(head, Some(body), upstream).status == STATUS_BAD_GATEWAY,
        exchange_reply(head, Some(body), upstream).body == "API request failed: "@ + cause@,
        "API request failed:"@.is_prefix_of(exchange_reply(head, Some(body), upstream).body),
{
    reveal_strlit("API request failed: ");
    reveal_strlit("API request failed:");
    let message = "API request failed: "@ + cause@;
    assert("API request failed:"@ =~= message.subrange(0, 19));
}

/// Two outcomes of the upstream call that read the same.
pub open spec fn same_outcome(first: UpstreamOutcome, second: UpstreamOutcome) -> bool {
    match (first, second) {
        (UpstreamOutcome::Failed(a), UpstreamOutcome::Failed(b)) => a@ == b@,
        (UpstreamOutcome::Unreadable, UpstreamOutcome::Unreadable) => true,
        (UpstreamOutcome::Body(a), UpstreamOutcome::Body(b)) => a@ == b@,
        _ => false,
    }
}

/// Two bodies that read the same, or two failed reads.
pub open spec fn same_read(first: Option<Vec<u8>>, second: Option<Vec<u8>>) -> bool {
    match (first, second) {
        (Some(a), Some(b)) => a@ == b@,
        (None, None) => true,
        _ => false,
    }
}

/// Two request heads that read the same.
pub open spec fn same_head(first: RequestHead, second: RequestHead) -> bool {
    first.method@ == second.method@ && first.path@ == second.path@ && same_read(
        first.content_type,
        second.content_type,
    )
}

/// The same request, sent again, ends in the same reply as long as the
/// upstream answers it the same way: the reply depends on nothing but what
/// the request holds and what the upstream sends back.
pub proof fn law_exchange_is_repeatable(
    first: RequestHead,
    first_read: Option<Vec<u8>>,
    first_upstream: spec_fn(serde_json::Value) -> UpstreamOutcome,
    second: RequestHead,
    second_read: Option<Vec<u8>>,
    second_upstream: spec_fn(serde_json::Value) -> UpstreamOutcome,
)
    requires
        same_head(first, second),
        same_read(first_read, second_read),
        forall|value: serde_json::Value|
            same_outcome(#[trigger] first_upstream(value), second_upstream(value)),
    ensures
        exchange_reply(first, first_read, first_upstream) == exchange_reply(
            second,
            second_read,
            second_upstream,
        ),
{
    if is_relay_route(first) && declares_json(first) {
        if let Ok(value) = payload(first_read) {
            assert(payload(second_read) == Ok::<serde_json::Value, ReplyView>(value));
            assert(same_outcome(first_upstream(value), second_upstream(value)));
        }
    }
}

/// The seven replies that an exchange can end in: four for a request that is
/// turned away, two for an upstream that gave no JSON, one that carries the
/// upstream's document.
pub open spec fn is_terminal_reply(reply: ReplyView) -> bool {
    ||| reply == not_found()
    ||| reply == unsupported_media_type()
    ||| reply == unreadable_body()
    ||| reply == invalid_json()
    ||| reply == undecodable_upstream()
    ||| exists|cause: Seq<char>| reply == upstream_failed(cause)
    ||| exists|value: serde_json::Value| reply == rendered(value)
}

/// Every exchange ends in one of the seven terminal replies, and so with one
/// of five statuses: 200, 400, 404, 415 or 502.
pub proof fn law_exchange_ends_in_terminal_reply(
    head: RequestHead,
    read: Option<Vec<u8>>,
    upstream: spec_fn(serde_json::Value) -> UpstreamOutcome,
)
    ensures
        is_terminal_reply(exchange_reply(head, read, upstream)),
        is_terminal_status(exchange_reply(head, read, upstream).status),
{
    if is_relay_route(head) && declares_json(head) {
        if let Ok(sent) = payload(read) {
            match upstream(sent) {
                UpstreamOutcome::Failed(cause) => {
                    assert(exchange_reply(head, read, upstream) == upstream_failed(cause@));
                },
                UpstreamOutcome::Unreadable => {},
                UpstreamOutcome::Body(bytes) => {
                    if let Some(value) = document(bytes@) {
                        assert(exchange_reply(head, read, upstream) == rendered(value));
                    }
                },
            }
        }
    }
}

/// The steps come in order and end in the reply that [`exchange_reply`]
/// names: the head alone never has a document forwarded, the body never asks
/// for another read, and an exchange that is not ended by one step goes on
/// with the next.
pub proof fn law_steps_compose(
    head: RequestHead,
    read: Option<Vec<u8>>,
    upstream: spec_fn(serde_json::Value) -> UpstreamOutcome,
)
    ensures
        !(on_request(head) is Forward),
        !(on_body(read) is ReadBody),
        on_request(head) matches StepView::Respond(reply) ==> exchange_reply(
            head,
            read,
            upstream,
        ) == reply,
        on_request(head) is ReadBody ==> (on_body(read) matches StepView::Respond(reply)
            ==> exchange_reply(head, read, upstream) == reply),
        on_request(head) is ReadBody ==> (on_body(read) matches StepView::Forward(value)
            ==> exchange_reply(head, read, upstream) == on_upstream(upstream(value))),
{
}

} // verus!
