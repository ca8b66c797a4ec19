//! The decisions of the Bluesky XRPC client: endpoint URLs and the
//! classification of failed responses.  The HTTP exchange itself is done by
//! the shell, which hands over the status code and the parsed body.

use crate::error::{AppError, ErrorView};
use crate::json::{opt_ref, JsonValue};
use crate::models::{decode_xrpc_error, XrpcErrorBody};
use crate::text::{concat2, owned, str_eq};
use vstd::prelude::*;

verus! {

/// The service entry point (the PDS is fixed to bsky.social).
pub const DEFAULT_SERVICE: &'static str = "https://bsky.social";

/// `{service}/xrpc/{method}`.
pub fn xrpc_url(service: &str, method: &str) -> (r: String)
    ensures
        r@ == service@ + "/xrpc/"@ + method@,
{
    let head = concat2(service, "/xrpc/");
    concat2(head.as_str(), method)
}

/// The reason phrase that the HTTP standard gives a status code, if any.
pub uninterp spec fn http_reason(status: u16) -> Option<Seq<char>>;

/// The canonical reason phrase of an HTTP status code.
///
/// Calls `reqwest::StatusCode::from_u16` and `StatusCode::canonical_reason`.
/// Trusted: the result is `http_reason(status)`, a fixed table of the crate;
/// a code outside 100..=999 has none.
#[verifier::external_body]
fn canonical_reason(status: u16) -> (r: Option<&'static str>)
    ensures
        match r {
            Some(s) => http_reason(status) == Some(s@),
            None => http_reason(status) is None,
        },
{
    match reqwest::StatusCode::from_u16(status) {
        Ok(code) => code.canonical_reason(),
        Err(_) => None,
    }
}

/// The error name of a response body: its `error` member when the body
/// decodes as an XRPC error, else empty.
pub open spec fn error_name_of(body: Option<JsonValue>) -> Seq<char> {
    match body {
        Some(v) => match decode_xrpc_error(v) {
            Some(e) => e.0,
            None => Seq::empty(),
        },
        None => Seq::empty(),
    }
}

/// Reads the error name of a response body (`None`: the body is not JSON).
pub fn error_name(body: Option<&JsonValue>) -> (r: String)
    ensures
        r@ == error_name_of(opt_ref(body)),
{
    match body {
        Some(v) => match XrpcErrorBody::from_json(v) {
            Some(e) => e.error,
            None => String::new(),
        },
        None => String::new(),
    }
}

/// Whether an error name says that the access token is no longer valid.
pub open spec fn is_token_error(name: Seq<char>) -> bool {
    name == "ExpiredToken"@ || name == "InvalidToken"@
}

/// The error for a failed XRPC response, from its status, its error name and
/// the status code's reason phrase.
pub open spec fn xrpc_error_of(status: u16, name: Seq<char>, reason: Option<Seq<char>>) -> ErrorView {
    if status == 401 || (status == 400 && is_token_error(name)) {
        ErrorView::Unauthorized
    } else if name.len() > 0 {
        ErrorView::Xrpc { status, error: name }
    } else if status == 429 {
        ErrorView::Xrpc { status, error: "RateLimitExceeded"@ }
    } else {
        ErrorView::Xrpc {
            status,
            error: match reason {
                Some(t) => t,
                None => "UnknownError"@,
            },
        }
    }
}

/// Classifies a failed XRPC response given the status code's reason phrase:
/// 401, or 400 with `ExpiredToken` / `InvalidToken`, is `Unauthorized`;
/// anything else is an XRPC error named by the body, by `RateLimitExceeded`
/// for 429, or by the reason phrase (`UnknownError` without one).
pub fn xrpc_error(status: u16, name: &str, reason: Option<&str>) -> (r: AppError)
    ensures
        r@ == xrpc_error_of(
            status,
            name@,
            match reason {
                Some(t) => Some(t@),
                None => None,
            },
        ),
{
    if status == 401 || (status == 400 && (str_eq(name, "ExpiredToken") || str_eq(name, "InvalidToken"))) {
        AppError::Unauthorized
    } else if !name.is_empty() {
        AppError::Xrpc { status, error: owned(name) }
    } else if status == 429 {
        AppError::Xrpc { status, error: owned("RateLimitExceeded") }
    } else {
        let error = match reason {
            Some(t) => owned(t),
            None => owned("UnknownError"),
        };
        AppError::Xrpc { status, error }
    }
}

/// Classifies a failed XRPC response from its status code and parsed body.
pub fn map_error(status: u16, body: Option<&JsonValue>) -> (r: AppError)
    ensures
        r@ == xrpc_error_of(status, error_name_of(opt_ref(body)), http_reason(status)),
{
    let name = error_name(body);
    let reason = canonical_reason(status);
    xrpc_error(status, name.as_str(), reason)
}

/// The error of a failed timeline request: 429 is `RateLimited` with the
/// server's `Retry-After` hint; anything else as [`map_error`].
pub fn timeline_error(status: u16, body: Option<&JsonValue>, retry_after_secs: Option<u64>) -> (r:
    AppError)
    ensures
        status == 429 ==> r@ == (ErrorView::RateLimited { retry_after_secs }),
        status != 429 ==> r@ == xrpc_error_of(
            status,
            error_name_of(opt_ref(body)),
            http_reason(status),
        ),
{
    if status == 429 {
        AppError::RateLimited { retry_after_secs }
    } else {
        map_error(status, body)
    }
}

/// The error of a failed session request: during a login attempt an
/// `Unauthorized` answer means the credentials were refused.
pub fn session_error(err: AppError, is_auth_attempt: bool) -> (r: AppError)
    ensures
        is_auth_attempt && err is Unauthorized ==> r is InvalidCredentials,
        !(is_auth_attempt && err is Unauthorized) ==> r == err,
{
    if is_auth_attempt && matches!(err, AppError::Unauthorized) {
        AppError::InvalidCredentials
    } else {
        err
    }
}

/// The error of a failed refresh: a refused refresh token means the user
/// must log in again.
pub fn refresh_error(err: AppError) -> (r: AppError)
    ensures
        (err is Unauthorized || err is InvalidCredentials) ==> r is RefreshFailed,
        !(err is Unauthorized || err is InvalidCredentials) ==> r == err,
{
    match err {
        AppError::Unauthorized | AppError::InvalidCredentials => AppError::RefreshFailed,
        e => e,
    }
}

} // verus!
