//! Unified error type for the broker clients.

use vstd::prelude::*;
use vstd::string::*;

use crate::json::{json_text, json_text_of};
use crate::text::{decimal_digits, owned, push_decimal};

verus! {

/// Errors that can occur while talking to either server.
#[allow(inconsistent_fields)]
#[derive(Debug, Clone, PartialEq, Eq)]
pub enum Error {
    /// Low-level connection/protocol failure.
    Transport(String),
    /// Request timed out.
    Timeout,
    /// HTTP response with a non-2xx status that could not be mapped to an API error.
    Http {
        /// HTTP status code.
        status: u16,
        /// Raw response body (possibly empty).
        body: String,
    },
    /// Server-side API error, from the TW and A-share error envelopes.
    Api {
        /// Server error code.
        code: String,
        /// Human-readable message.
        message: String,
        /// Extra structured detail.
        detail: serde_json::Value,
        /// HTTP status of the response that carried the error, if any.
        status: Option<u16>,
    },
    /// JSON decoding failed.
    Decode {
        /// Raw body that failed to decode.
        body: String,
        /// Human-readable decoder message.
        source: String,
    },
    /// WebSocket related error.
    WebSocket(String),
    /// Invalid URL or URL composition error.
    InvalidUrl(String),
    /// Client-side validation failed before a request was sent.
    InvalidRequest(String),
}

/// An HTTP status that may succeed when a safe request is repeated:
/// `429 Too Many Requests` or any server error (`5xx` and above).
pub open spec fn is_retryable_status(status: u16) -> bool {
    status == 429 || status >= 500
}

impl Error {
    /// Whether a safe (idempotent GET) request may be repeated after this
    /// error: transport failures and timeouts, and HTTP or API errors whose
    /// response status is 429 or 5xx.
    pub open spec fn spec_is_retryable(&self) -> bool {
        match self {
            Error::Transport(_) => true,
            Error::Timeout => true,
            Error::Http { status, .. } => is_retryable_status(*status),
            Error::Api { status, .. } => match status {
                Some(s) => is_retryable_status(*s),
                None => false,
            },
            _ => false,
        }
    }

    /// The display text of the error; `detail_text` stands for the JSON text
    /// of an API error's detail.
    pub open spec fn display_with(&self, detail_text: Seq<char>) -> Seq<char> {
        match self {
            Error::Transport(msg) => "transport error: "@ + msg@,
            Error::Timeout => "request timed out"@,
            Error::Http { status, body } => "http error "@ + decimal_digits(*status as nat)
                + ": "@ + body@,
            Error::Api { code, message, .. } => "api error "@ + code@ + ": "@ + message@
                + " (detail: "@ + detail_text + ")"@,
            Error::Decode { body, source } => "failed to decode response: "@ + source@
                + "; body: "@ + body@,
            Error::WebSocket(msg) => "websocket error: "@ + msg@,
            Error::InvalidUrl(url) => "invalid url: "@ + url@,
            Error::InvalidRequest(msg) => "invalid request: "@ + msg@,
        }
    }

    /// Creates an [`Error::Decode`] preserving the raw body and the decoder's
    /// message.
    pub fn decode(body: String, source: String) -> (r: Self)
        ensures
            r == (Error::Decode { body, source }),
    {
        Error::Decode { body, source }
    }

    /// Maps a failed HTTP exchange: a timeout becomes [`Error::Timeout`],
    /// anything else [`Error::Transport`] with the failure's message.
    pub fn from_transport_failure(is_timeout: bool, message: String) -> (r: Self)
        ensures
            is_timeout ==> r == Error::Timeout,
            !is_timeout ==> r == Error::Transport(message),
    {
        if is_timeout {
            Error::Timeout
        } else {
            Error::Transport(message)
        }
    }

    /// Returns true for errors that are safe to retry for idempotent GETs.
    pub fn is_retryable(&self) -> (r: bool)
        ensures
            r == self.spec_is_retryable(),
    {
        match self {
            Error::Transport(_) => true,
            Error::Timeout => true,
            Error::Http { status, .. } => *status == 429 || *status >= 500,
            Error::Api { status, .. } => match status {
                Some(s) => *s == 429 || *s >= 500,
                None => false,
            },
            Error::Decode { .. } => false,
            Error::WebSocket(_) => false,
            Error::InvalidUrl(_) => false,
            Error::InvalidRequest(_) => false,
        }
    }

    /// The human-readable message of the error (its display text).
    pub fn to_display_string(&self) -> (r: String)
        ensures
            self is Api ==> r@ == self.display_with(json_text_of(self->detail)),
            !(self is Api) ==> r@ == self.display_with(Seq::empty()),
    {
        let ghost mut witness: Seq<char> = Seq::empty();
        let r = match self {
            Error::Transport(msg) => owned("transport error: ").concat(msg.as_str()),
            Error::Timeout => owned("request timed out"),
            Error::Http { status, body } => {
                let mut s = owned("http error ");
                push_decimal(&mut s, *status as u64);
                s.concat(": ").concat(body.as_str())
            },
            Error::Api { code, message, detail, .. } => {
                let d = json_text(detail);
                let r = owned("api error ").concat(code.as_str()).concat(": ").concat(
                    message.as_str(),
                ).concat(" (detail: ").concat(d.as_str()).concat(")");
                proof {
                    witness = d@;
                }
                r
            },
            Error::Decode { body, source } => owned("failed to decode response: ").concat(
                source.as_str(),
            ).concat("; body: ").concat(body.as_str()),
            Error::WebSocket(msg) => owned("websocket error: ").concat(msg.as_str()),
            Error::InvalidUrl(url) => owned("invalid url: ").concat(url.as_str()),
            Error::InvalidRequest(msg) => owned("invalid request: ").concat(msg.as_str()),
        };
        assert(r@ == self.display_with(witness));
        r
    }
}


/// The display text of each error names its kind and carries its fields:
/// a transport or WebSocket message, the status and body of an HTTP error,
/// the code, message and detail text of an API error, the decoder message
/// and body of a decode error, the refused URL, or the refused request.
pub proof fn law_error_display(text: String, body: String, status: u16, code: String, message: String, detail: serde_json::Value, d: Seq<char>)
    ensures
        Error::Transport(text).display_with(d) == "transport error: "@ + text@,
        Error::Timeout.display_with(d) == "request timed out"@,
        (Error::Http { status, body }).display_with(d) == "http error "@ + decimal_digits(status as nat) + ": "@ + body@,
        (Error::Api { code, message, detail, status: None }).display_with(d) == "api error "@ + code@
            + ": "@ + message@ + " (detail: "@ + d + ")"@,
        (Error::Decode { body, source: text }).display_with(d) == "failed to decode response: "@
            + text@ + "; body: "@ + body@,
        Error::WebSocket(text).display_with(d) == "websocket error: "@ + text@,
        Error::InvalidUrl(text).display_with(d) == "invalid url: "@ + text@,
        Error::InvalidRequest(text).display_with(d) == "invalid request: "@ + text@,
{
}

} // verus!
