//! Idempotency for HTTP: which requests are guarded, and how errors are answered.

use vstd::prelude::*;
use crate::text::{header_text, visible_text};
use crate::types::{ErrorView, IdempotencyError};

verus! {

/// The user to whom a request without a user belongs.
pub const ANONYMOUS: &'static str = "anonymous";

/// The text of a header, if the header is there and can be read as text.
pub open spec fn header_view(value: Option<&[u8]>) -> Option<Seq<char>> {
    match value {
        Some(bytes) => visible_text(bytes@),
        None => None,
    }
}

/// The user that a header names, or else the anonymous one.
pub open spec fn user_view(value: Option<&[u8]>) -> Seq<char> {
    match header_view(value) {
        Some(user_id) => user_id,
        None => ANONYMOUS@,
    }
}

/// Reads a header that may be missing.
pub(crate) fn read_header(value: Option<&[u8]>) -> (res: Option<String>)
    ensures
        match res {
            Some(text) => header_view(value) == Some(text@),
            None => header_view(value) is None,
        },
{
    match value {
        Some(bytes) => header_text(bytes),
        None => None,
    }
}

/// Reads the user that a header names.
pub(crate) fn read_user(value: Option<&[u8]>) -> (res: String)
    ensures
        res@ == user_view(value),
{
    match read_header(value) {
        Some(user_id) => user_id,
        None => ANONYMOUS.to_string(),
    }
}

/// Whether requests with this method change something, so that they are guarded.
pub open spec fn is_mutating(method: Seq<char>) -> bool {
    method == "POST"@ || method == "PUT"@ || method == "PATCH"@
}

/// What is to become of an HTTP request.
#[derive(Debug)]
pub enum Admission {
    /// Hand it on as it is.
    PassThrough,
    /// Answer it with this status.
    Reject { status: u16 },
    /// Handle it once, under this key and for this user.
    Process { key: String, user_id: String },
}

/// An `Admission` over views.
pub enum AdmissionView {
    PassThrough,
    Reject { status: u16 },
    Process { key: Seq<char>, user_id: Seq<char> },
}

impl View for Admission {
    type V = AdmissionView;

    open spec fn view(&self) -> AdmissionView {
        match self {
            Admission::PassThrough => AdmissionView::PassThrough,
            Admission::Reject { status } => AdmissionView::Reject { status: *status },
            Admission::Process { key, user_id } => AdmissionView::Process {
                key: key@,
                user_id: user_id@,
            },
        }
    }
}

/// Requests that change nothing pass; others need a key in their
/// `Idempotency-Key` header, and are scoped to the user in `X-User-ID`.
pub open spec fn admission(
    method: Seq<char>,
    idempotency_key: Option<&[u8]>,
    user_id: Option<&[u8]>,
) -> AdmissionView {
    if !is_mutating(method) {
        AdmissionView::PassThrough
    } else {
        match header_view(idempotency_key) {
            None => AdmissionView::Reject { status: 400 },
            Some(key) => AdmissionView::Process { key, user_id: user_view(user_id) },
        }
    }
}

/// Decides what is to become of an HTTP request, given its method and the values of its
/// `Idempotency-Key` and `X-User-ID` headers.
pub fn idempotency_middleware(
    method: &str,
    idempotency_key: Option<&[u8]>,
    user_id: Option<&[u8]>,
) -> (res: Admission)
    ensures
        res@ == admission(method@, idempotency_key, user_id),
{
    let method = method.to_string();
    if !(method == "POST".to_string() || method == "PUT".to_string() || method
        == "PATCH".to_string()) {
        return Admission::PassThrough;
    }
    match read_header(idempotency_key) {
        None => Admission::Reject { status: 400 },
        Some(key) => Admission::Process { key, user_id: read_user(user_id) },
    }
}

/// The HTTP status of an error: 409 while another request is on the way, 422
/// where a key was used for another request, 400 where the key is missing or
/// malformed, and 500 else.
pub open spec fn error_status(e: ErrorView) -> u16 {
    match e {
        ErrorView::RequestInProgress { .. } => 409,
        ErrorView::ConcurrentRequestConflict => 409,
        ErrorView::KeyReusedWithDifferentRequest => 422,
        ErrorView::MissingIdempotencyKey => 400,
        ErrorView::InvalidKeyFormat => 400,
        _ => 500,
    }
}

/// The HTTP status with which an error is answered.
pub fn status_of_error(e: &IdempotencyError) -> (res: u16)
    ensures
        res == error_status(e@),
{
    match e {
        IdempotencyError::RequestInProgress { .. } => 409,
        IdempotencyError::ConcurrentRequestConflict => 409,
        IdempotencyError::KeyReusedWithDifferentRequest => 422,
        IdempotencyError::MissingIdempotencyKey => 400,
        IdempotencyError::InvalidKeyFormat => 400,
        _ => 500,
    }
}

} // verus!
