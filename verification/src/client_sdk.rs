//! The client's side: which responses are tried again, and when a call is let through.

use vstd::prelude::*;
use vstd::string::*;
use crate::axum_integration::{header_view, read_header};
use crate::middleware::{is_idempotency_key, random_key};
use crate::text::{parse_u64, parsed_u64};

verus! {

/// How a call can fail.
#[derive(Debug)]
pub enum ClientError {
    /// The server asked for fewer calls.
    RateLimited,
    /// The server refused the call with this status.
    ClientError(u16),
    /// The server failed.
    ServerError,
    /// The circuit breaker is open.
    CircuitOpen,
    /// The call did not come to a response; the text says why.
    Transport(String),
}

/// What a response means for the call.
#[derive(Debug)]
pub enum Verdict {
    /// The call succeeded: its body is the result.
    Success,
    /// Wait for so many seconds, then try again, the error being `RateLimited`.
    RetryAfter { seconds: u64 },
    /// Try again, with this error if there are no tries left.
    Retry(ClientError),
    /// Give up with this error.
    GiveUp(ClientError),
}

/// The seconds to wait that a `Retry-After` header asks for: one, where it is
/// missing or no number.
pub open spec fn wait_seconds(retry_after: Option<&[u8]>) -> u64 {
    match header_view(retry_after) {
        Some(text) => match parsed_u64(text) {
            Some(seconds) => seconds,
            None => 1,
        },
        None => 1,
    }
}

/// What a response means: a success is a result, too many requests are waited
/// out, other client errors are final, and all else is tried again.
pub open spec fn verdict(status: u16, retry_after: Option<&[u8]>) -> Verdict {
    if 200 <= status < 300 {
        Verdict::Success
    } else if status == 429 {
        Verdict::RetryAfter { seconds: wait_seconds(retry_after) }
    } else if 400 <= status < 500 {
        Verdict::GiveUp(ClientError::ClientError(status))
    } else {
        Verdict::Retry(ClientError::ServerError)
    }
}

/// Judges a response by its status and its `Retry-After` header.
pub fn judge_response(status: u16, retry_after: Option<&[u8]>) -> (res: Verdict)
    ensures
        res == verdict(status, retry_after),
{
    if 200 <= status && status < 300 {
        Verdict::Success
    } else if status == 429 {
        let seconds: u64 = match read_header(retry_after) {
            Some(text) => match parse_u64(text.as_str()) {
                Some(n) => n,
                None => 1,
            },
            None => 1,
        };
        Verdict::RetryAfter { seconds }
    } else if 400 <= status && status < 500 {
        Verdict::GiveUp(ClientError::ClientError(status))
    } else {
        Verdict::Retry(ClientError::ServerError)
    }
}

/// Judges a call that came to no response that could be read, `cause` saying why:
/// it is tried again.
pub fn judge_failure(cause: String) -> (res: Verdict)
    ensures
        res == Verdict::Retry(ClientError::Transport(cause)),
{
    Verdict::Retry(ClientError::Transport(cause))
}

/// Draws the key under which a call is made and tried again. It is one that the
/// server accepts.
pub fn new_idempotency_key() -> (res: String)
    ensures
        is_idempotency_key(res@),
{
    random_key()
}

/// The address of a path on a server.
pub fn request_url(base_url: &str, path: &str) -> (res: String)
    ensures
        res@ == base_url@ + path@,
{
    base_url.to_string().concat(path)
}

/// Lets a call through unless the circuit breaker is open.
pub fn admit_call(breaker_is_open: bool) -> (res: Result<(), ClientError>)
    ensures
        res is Ok <==> !breaker_is_open,
        res matches Err(e) ==> e is CircuitOpen,
{
    if breaker_is_open {
        Err(ClientError::CircuitOpen)
    } else {
        Ok(())
    }
}

/// What the circuit breaker is told of a call.
#[derive(Clone, Copy, Debug, PartialEq, Eq, Structural)]
pub enum BreakerReport {
    Success,
    Failure,
}

/// What the circuit breaker is told of a call that was let through.
pub fn report_call<T>(outcome: &Result<T, ClientError>) -> (res: BreakerReport)
    ensures
        res is Success <==> outcome is Ok,
{
    match outcome {
        Ok(_) => BreakerReport::Success,
        Err(_) => BreakerReport::Failure,
    }
}

} // verus!
