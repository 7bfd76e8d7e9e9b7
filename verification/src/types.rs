//! Errors, records, responses and lock results.

use std::collections::HashMap;
use vstd::prelude::*;
use vstd::string::*;
use crate::text::{decimal, decimal_text};
use crate::time::Timestamp;

verus! {

/// What can go wrong with an idempotent request.
#[derive(Debug)]
pub enum IdempotencyError {
    RequestInProgress { retry_after: u64 },
    KeyReusedWithDifferentRequest,
    MissingIdempotencyKey,
    StorageError(String),
    InvalidKeyFormat,
    TransactionFailed(String),
    ConcurrentRequestConflict,
    HandlerFailed(String),
}

/// An `IdempotencyError`, its texts as sequences of characters.
pub enum ErrorView {
    RequestInProgress { retry_after: u64 },
    KeyReusedWithDifferentRequest,
    MissingIdempotencyKey,
    StorageError(Seq<char>),
    InvalidKeyFormat,
    TransactionFailed(Seq<char>),
    ConcurrentRequestConflict,
    HandlerFailed(Seq<char>),
}

impl View for IdempotencyError {
    type V = ErrorView;

    open spec fn view(&self) -> ErrorView {
        match self {
            IdempotencyError::RequestInProgress { retry_after } => ErrorView::RequestInProgress {
                retry_after: *retry_after,
            },
            IdempotencyError::KeyReusedWithDifferentRequest => {
                ErrorView::KeyReusedWithDifferentRequest
            },
            IdempotencyError::MissingIdempotencyKey => ErrorView::MissingIdempotencyKey,
            IdempotencyError::StorageError(text) => ErrorView::StorageError(text@),
            IdempotencyError::InvalidKeyFormat => ErrorView::InvalidKeyFormat,
            IdempotencyError::TransactionFailed(text) => ErrorView::TransactionFailed(text@),
            IdempotencyError::ConcurrentRequestConflict => ErrorView::ConcurrentRequestConflict,
            IdempotencyError::HandlerFailed(text) => ErrorView::HandlerFailed(text@),
        }
    }
}

impl ErrorView {
    /// The sentence that tells a reader of the error.
    pub open spec fn message(self) -> Seq<char> {
        match self {
            ErrorView::RequestInProgress { retry_after } => {
                "Request in progress (retry after "@ + decimal(retry_after as nat) + " seconds)"@
            },
            ErrorView::KeyReusedWithDifferentRequest => {
                "Idempotency key reused with different request"@
            },
            ErrorView::MissingIdempotencyKey => "Missing idempotency key"@,
            ErrorView::StorageError(text) => "Storage error: "@ + text,
            ErrorView::InvalidKeyFormat => "Invalid idempotency key format"@,
            ErrorView::TransactionFailed(text) => "Transaction failed: "@ + text,
            ErrorView::ConcurrentRequestConflict => "Concurrent request conflict"@,
            ErrorView::HandlerFailed(text) => "Handler execution failed: "@ + text,
        }
    }

    /// Whether a handler that failed so may be run again.
    pub open spec fn is_retryable(self) -> bool {
        self is StorageError || self is TransactionFailed || self is HandlerFailed
    }
}

impl IdempotencyError {
    /// The sentence that tells a reader of the error.
    pub fn message(&self) -> (res: String)
        ensures
            res@ == self@.message(),
    {
        match self {
            IdempotencyError::RequestInProgress { retry_after } => {
                "Request in progress (retry after ".to_string().concat(
                    decimal_text(*retry_after).as_str(),
                ).concat(" seconds)")
            },
            IdempotencyError::KeyReusedWithDifferentRequest => {
                "Idempotency key reused with different request".to_string()
            },
            IdempotencyError::MissingIdempotencyKey => "Missing idempotency key".to_string(),
            IdempotencyError::StorageError(text) => {
                "Storage error: ".to_string().concat(text.as_str())
            },
            IdempotencyError::InvalidKeyFormat => "Invalid idempotency key format".to_string(),
            IdempotencyError::TransactionFailed(text) => {
                "Transaction failed: ".to_string().concat(text.as_str())
            },
            IdempotencyError::ConcurrentRequestConflict => {
                "Concurrent request conflict".to_string()
            },
            IdempotencyError::HandlerFailed(text) => {
                "Handler execution failed: ".to_string().concat(text.as_str())
            },
        }
    }

    /// Whether a handler that failed so may be run again.
    pub fn is_retryable(&self) -> (res: bool)
        ensures
            res == self@.is_retryable(),
    {
        match self {
            IdempotencyError::StorageError(_) => true,
            IdempotencyError::TransactionFailed(_) => true,
            IdempotencyError::HandlerFailed(_) => true,
            _ => false,
        }
    }
}

/// The view of an optional text.
pub open spec fn text_view(text: Option<String>) -> Option<Seq<char>> {
    match text {
        Some(s) => Some(s@),
        None => None,
    }
}

/// How far a request has come.
#[derive(Clone, Copy, Debug, PartialEq, Eq, Structural)]
pub enum IdempotencyStatus {
    Pending,
    Completed,
    Failed { is_retryable: bool },
}

/// A response as it is kept and given again.
#[derive(Clone, Debug)]
pub struct CachedResponse {
    pub status_code: u16,
    pub headers: HashMap<String, String>,
    pub body: Vec<u8>,
}

/// A `CachedResponse`, its headers as a map of texts.
#[verifier::ext_equal]
pub struct ResponseView {
    pub status_code: u16,
    pub headers: Map<Seq<char>, Seq<char>>,
    pub body: Seq<u8>,
}

/// The texts that a map of strings holds.
pub open spec fn text_map(m: Map<String, String>) -> Map<Seq<char>, Seq<char>> {
    Map::new(
        |name: Seq<char>| exists|k: String| #[trigger] m.contains_key(k) && k@ == name,
        |name: Seq<char>| m[choose|k: String| #[trigger] m.contains_key(k) && k@ == name]@,
    )
}

impl View for CachedResponse {
    type V = ResponseView;

    open spec fn view(&self) -> ResponseView {
        ResponseView {
            status_code: self.status_code,
            headers: text_map(self.headers@),
            body: self.body@,
        }
    }
}

/// The view of an optional response.
pub open spec fn response_view(response: Option<CachedResponse>) -> Option<ResponseView> {
    match response {
        Some(r) => Some(r@),
        None => None,
    }
}

/// What is kept of a request, under its key and its user.
#[derive(Clone, Debug)]
pub struct IdempotencyRecord {
    pub key: String,
    /// The user or tenant whose key it is.
    pub user_id: String,
    pub request_path: String,
    pub request_method: String,
    pub request_fingerprint: String,
    pub status: IdempotencyStatus,
    pub response: Option<CachedResponse>,
    pub created_at: Timestamp,
    pub expires_at: Timestamp,
    pub locked_until: Option<Timestamp>,
}

/// An `IdempotencyRecord`, its texts as sequences of characters.
#[verifier::ext_equal]
pub struct RecordView {
    pub key: Seq<char>,
    pub user_id: Seq<char>,
    pub request_path: Seq<char>,
    pub request_method: Seq<char>,
    pub request_fingerprint: Seq<char>,
    pub status: IdempotencyStatus,
    pub response: Option<ResponseView>,
    pub created_at: Timestamp,
    pub expires_at: Timestamp,
    pub locked_until: Option<Timestamp>,
}

impl View for IdempotencyRecord {
    type V = RecordView;

    open spec fn view(&self) -> RecordView {
        RecordView {
            key: self.key@,
            user_id: self.user_id@,
            request_path: self.request_path@,
            request_method: self.request_method@,
            request_fingerprint: self.request_fingerprint@,
            status: self.status,
            response: response_view(self.response),
            created_at: self.created_at,
            expires_at: self.expires_at,
            locked_until: self.locked_until,
        }
    }
}

impl RecordView {
    /// The record as it goes in when its lock is taken: whatever its status, it is pending.
    pub open spec fn pending(self) -> RecordView {
        RecordView { status: IdempotencyStatus::Pending, ..self }
    }

    /// Whether every instant of the record is one that the calendar has.
    pub open spec fn valid(self) -> bool {
        &&& self.created_at.valid()
        &&& self.expires_at.valid()
        &&& self.locked_until matches Some(until) ==> until.valid()
    }

    /// Whether every instant of the record has a year of four digits, so that its text can be
    /// read again.
    pub open spec fn has_readable_times(self) -> bool {
        &&& self.created_at.has_four_digit_year()
        &&& self.expires_at.has_four_digit_year()
        &&& self.locked_until matches Some(until) ==> until.has_four_digit_year()
    }
}

impl IdempotencyRecord {
    /// Whether every instant of the record is one that the calendar has.
    pub fn is_valid(&self) -> (res: bool)
        ensures
            res == self@.valid(),
    {
        self.created_at.is_valid() && self.expires_at.is_valid() && match &self.locked_until {
            Some(until) => until.is_valid(),
            None => true,
        }
    }
}

/// The answer to an attempt to take the lock of a request.
#[derive(Debug)]
pub enum LockResult {
    /// The lock is taken: it is safe to proceed.
    Acquired,
    /// The request was completed: its response is to be given again.
    AlreadyCompleted(CachedResponse),
    /// Another worker is on the request.
    InProgress { retry_after: u64 },
    /// The key was used for another request.
    KeyReused,
    /// The request failed for good: its error response is to be given again.
    FailedPermanently(CachedResponse),
}

/// A `LockResult` over views.
pub enum LockView {
    Acquired,
    AlreadyCompleted(ResponseView),
    InProgress { retry_after: u64 },
    KeyReused,
    FailedPermanently(ResponseView),
}

impl View for LockResult {
    type V = LockView;

    open spec fn view(&self) -> LockView {
        match self {
            LockResult::Acquired => LockView::Acquired,
            LockResult::AlreadyCompleted(response) => LockView::AlreadyCompleted(response@),
            LockResult::InProgress { retry_after } => LockView::InProgress {
                retry_after: *retry_after,
            },
            LockResult::KeyReused => LockView::KeyReused,
            LockResult::FailedPermanently(response) => LockView::FailedPermanently(response@),
        }
    }
}

} // verus!
