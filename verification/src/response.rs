//! Response envelopes of the two documented server styles, and the mapping
//! of error responses to [`Error`].
//!
//! Decoding JSON text into these shapes is done by the caller; the
//! functions here decide what a decoded shape means.

use vstd::prelude::*;

use crate::error::Error;
use crate::json::{json_empty_object, json_null, json_text_of};
use crate::text::{i64_to_string, int_decimal, owned};

verus! {

/// TW success envelope: `{ "code": 0, "message": "ok", "data": ... }`.
#[derive(Debug, Clone, PartialEq, Eq)]
pub struct TwEnvelope<T> {
    /// `0` means success.
    pub code: i64,
    /// Server-provided message.
    pub message: String,
    /// Success payload; absent/`null` on some endpoints.
    pub data: Option<T>,
}

/// TW failure envelope: `{ "detail": { "code": ..., "message": ..., "detail": ... } }`.
#[derive(Debug, Clone, PartialEq, Eq)]
pub struct TwErrorEnvelope {
    /// Wrapped error details.
    pub detail: ApiErrorBody,
}

/// A-share error body: `{ "code": "error", "message": "...", "detail": {} }`.
#[derive(Debug, Clone, PartialEq, Eq)]
pub struct ApiErrorBody {
    /// Server error code.
    pub code: String,
    /// Human-readable message.
    pub message: String,
    /// Optional structured detail (`null` when absent).
    pub detail: serde_json::Value,
}

/// A-share bare error body: `{ "error": "..." }`.
///
/// This is the shape handlers produce before the `/v1` middleware rewrites it
/// into [`ApiErrorBody`].
#[derive(Debug, Clone, PartialEq, Eq)]
pub struct BareErrorBody {
    /// Server-provided message.
    pub error: String,
}

/// The error for a TW envelope with a non-zero code: the code as decimal
/// text, the server's message, and no HTTP status.
pub open spec fn spec_envelope_error(code: i64, message: String, e: Error) -> bool {
    e matches Error::Api { code: c, message: m, detail: d, status: st } && c@ == int_decimal(
        code as int,
    ) && m == message && json_text_of(d) == "null"@ && st == None::<u16>
}

impl<T> TwEnvelope<T> {
    /// Converts the envelope into the typed payload, mapping non-zero codes to
    /// [`Error::Api`] and a successful envelope without data to
    /// [`Error::Decode`].
    pub fn into_data(self) -> (r: Result<T, Error>)
        ensures
            self.code == 0 && self.data is Some ==> r == Ok::<T, Error>(self.data->0),
            self.code == 0 && self.data is None ==> (r matches Err(Error::Decode { body, source })
                && body@ == "missing data field in TW success envelope"@ && source@
                == "expected data"@),
            self.code != 0 ==> (r matches Err(e) && spec_envelope_error(self.code, self.message, e)),
    {
        if self.code == 0 {
            match self.data {
                Some(data) => Ok(data),
                None => Err(Error::Decode {
                    body: owned("missing data field in TW success envelope"),
                    source: owned("expected data"),
                }),
            }
        } else {
            Err(Error::Api {
                code: i64_to_string(self.code),
                message: self.message,
                detail: json_null(),
                status: None,
            })
        }
    }

    /// Checks that the envelope succeeded and ignores the payload.
    ///
    /// This is for endpoints whose success response has no `data` field.
    pub fn into_unit(self) -> (r: Result<(), Error>)
        ensures
            self.code == 0 ==> r == Ok::<(), Error>(()),
            self.code != 0 ==> (r matches Err(e) && spec_envelope_error(self.code, self.message, e)),
    {
        if self.code == 0 {
            Ok(())
        } else {
            Err(Error::Api {
                code: i64_to_string(self.code),
                message: self.message,
                detail: json_null(),
                status: None,
            })
        }
    }
}

/// The API error a `{ code, message, detail }` body describes, with no HTTP
/// status.
pub open spec fn spec_api_error(body: ApiErrorBody) -> Error {
    Error::Api { code: body.code, message: body.message, detail: body.detail, status: None }
}

/// The error with the HTTP status of the response attached, when it is an
/// API error.
pub open spec fn spec_with_status(error: Error, status: u16) -> Error {
    match error {
        Error::Api { code, message, detail, .. } => Error::Api {
            code,
            message,
            detail,
            status: Some(status),
        },
        e => e,
    }
}

/// Maps a decoded TW error envelope to an [`Error::Api`].
pub fn parse_tw_error_body(envelope: Option<TwErrorEnvelope>) -> (r: Option<Error>)
    ensures
        r == match envelope {
            Some(env) => Some(spec_api_error(env.detail)),
            None => None::<Error>,
        },
{
    match envelope {
        Some(env) => Some(Error::Api {
            code: env.detail.code,
            message: env.detail.message,
            detail: env.detail.detail,
            status: None,
        }),
        None => None,
    }
}

/// Maps a decoded A-share error body to an [`Error::Api`].
///
/// The `{ code, message, detail }` shape is tried first; the bare
/// `{ "error": ... }` shape maps to code `error`, the server's message and an
/// empty object as detail, so a route without the `/v1` middleware cannot
/// degrade into an opaque [`Error::Http`].
pub fn parse_a_error_body(body: Option<ApiErrorBody>, bare: Option<BareErrorBody>) -> (r: Option<Error>)
    ensures
        body is Some ==> r == Some(spec_api_error(body->0)),
        body is None && bare is Some ==> (r matches Some(Error::Api { code, message, detail, status })
            && code@ == "error"@ && message == bare->0.error && json_text_of(detail) == "{}"@
            && status == None::<u16>),
        body is None && bare is None ==> r is None,
{
    match body {
        Some(parsed) => Some(Error::Api {
            code: parsed.code,
            message: parsed.message,
            detail: parsed.detail,
            status: None,
        }),
        None => match bare {
            Some(b) => Some(Error::Api {
                code: owned("error"),
                message: b.error,
                detail: json_empty_object(),
                status: None,
            }),
            None => None,
        },
    }
}

/// Attaches the HTTP status to an API error; other errors are unchanged.
pub fn attach_http_status(error: Error, status: u16) -> (r: Error)
    ensures
        r == spec_with_status(error, status),
{
    match error {
        Error::Api { code, message, detail, .. } => Error::Api {
            code,
            message,
            detail,
            status: Some(status),
        },
        error => error,
    }
}

/// Converts an HTTP error status/body into the most specific [`Error`].
///
/// `tw`, `api` and `bare` are the body decoded as the TW failure envelope,
/// the A-share error body and the bare A-share error body (each `None` when
/// the body does not have that shape). The TW envelope is tried first, then
/// the A-share shapes; API errors keep the HTTP status so GET retry policy
/// can still tell 429 and 5xx apart. Any other body becomes [`Error::Http`]
/// with the raw body.
pub fn http_error(
    status: u16,
    body: String,
    tw: Option<TwErrorEnvelope>,
    api: Option<ApiErrorBody>,
    bare: Option<BareErrorBody>,
) -> (r: Error)
    ensures
        tw is Some ==> r == spec_with_status(spec_api_error(tw->0.detail), status),
        tw is None && api is Some ==> r == spec_with_status(spec_api_error(api->0), status),
        tw is None && api is None && bare is Some ==> (r matches Error::Api {
            code,
            message,
            detail,
            status: st,
        } && code@ == "error"@ && message == bare->0.error && json_text_of(detail) == "{}"@ && st
            == Some(status)),
        tw is None && api is None && bare is None ==> r == (Error::Http { status, body }),
{
    if let Some(err) = parse_tw_error_body(tw) {
        return attach_http_status(err, status);
    }
    if let Some(err) = parse_a_error_body(api, bare) {
        return attach_http_status(err, status);
    }
    Error::Http { status, body }
}


/// An error body becomes an API error with the body's code, message and
/// detail and no status; attaching a response status sets the status of an
/// API error and leaves every other field, and every other error, as it was.
pub proof fn law_api_errors(body: ApiErrorBody, error: Error, status: u16)
    ensures
        spec_api_error(body) == (Error::Api {
            code: body.code,
            message: body.message,
            detail: body.detail,
            status: None,
        }),
        error matches Error::Api { code, message, detail, .. } ==> spec_with_status(error, status)
            == (Error::Api { code, message, detail, status: Some(status) }),
        !(error is Api) ==> spec_with_status(error, status) == error,
{
}

} // verus!
