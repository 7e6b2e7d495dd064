//! The terminal responses of the relay: a status code and a text body.

use vstd::prelude::*;

verus! {

/// `200 OK`.
pub const STATUS_OK: u16 = 200;

/// `400 Bad Request`.
pub const STATUS_BAD_REQUEST: u16 = 400;

/// `404 Not Found`.
pub const STATUS_NOT_FOUND: u16 = 404;

/// `415 Unsupported Media Type`.
pub const STATUS_UNSUPPORTED_MEDIA_TYPE: u16 = 415;

/// `502 Bad Gateway`.
pub const STATUS_BAD_GATEWAY: u16 = 502;

/// A response to the original caller. No header is set beyond the defaults.
#[derive(Debug, PartialEq, Eq)]
pub struct Reply {
    pub status: u16,
    pub body: String,
}

/// What a [`Reply`] is: its status and the characters of its body.
pub struct ReplyView {
    pub status: u16,
    pub body: Seq<char>,
}

impl View for Reply {
    type V = ReplyView;

    open spec fn view(&self) -> ReplyView {
        ReplyView { status: self.status, body: self.body@ }
    }
}

/// The reply with the given status whose body is the given text.
pub open spec fn plain(status: u16, text: Seq<char>) -> ReplyView {
    ReplyView { status, body: text }
}

/// Answer to anything but `POST /hello`.
pub open spec fn not_found() -> ReplyView {
    plain(STATUS_NOT_FOUND, "Not Found"@)
}

/// Answer to a request whose content type is not JSON.
pub open spec fn unsupported_media_type() -> ReplyView {
    plain(STATUS_UNSUPPORTED_MEDIA_TYPE, "Expected application/json"@)
}

/// Answer to a request whose body could not be read.
pub open spec fn unreadable_body() -> ReplyView {
    plain(STATUS_BAD_REQUEST, "Failed to read body"@)
}

/// Answer to a request whose body is not JSON.
pub open spec fn invalid_json() -> ReplyView {
    plain(STATUS_BAD_REQUEST, "Invalid JSON format"@)
}

/// Answer when the upstream could not be reached; `cause` is the transport's
/// own account of the failure.
pub open spec fn upstream_failed(cause: Seq<char>) -> ReplyView {
    plain(STATUS_BAD_GATEWAY, "API request failed: "@ + cause)
}

/// Answer when the upstream's response is not JSON.
pub open spec fn undecodable_upstream() -> ReplyView {
    plain(STATUS_BAD_GATEWAY, "Failed to decode API response"@)
}

/// The body sent, under `200 OK`, when the upstream's document cannot be
/// written out again.
pub open spec fn serialize_fallback() -> Seq<char> {
    "Failed to serialize response"@
}

/// Whether `status` is one of the five an exchange can end with.
pub open spec fn is_terminal_status(status: u16) -> bool {
    status == STATUS_OK || status == STATUS_BAD_REQUEST || status == STATUS_NOT_FOUND
        || status == STATUS_UNSUPPORTED_MEDIA_TYPE || status == STATUS_BAD_GATEWAY
}

impl Reply {
    /// A reply with a fixed text as its body.
    pub fn text(status: u16, message: &str) -> (reply: Reply)
        ensures
            reply@ == plain(status, message@),
    {
        Reply { status, body: message.to_owned() }
    }

    /// A reply that owns an already built body.
    pub fn with_body(status: u16, body: String) -> (reply: Reply)
        ensures
            reply@ == plain(status, body@),
    {
        Reply { status, body }
    }
}

} // verus!
