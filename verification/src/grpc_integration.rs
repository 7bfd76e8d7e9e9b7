//! Idempotency for unary gRPC calls: who calls, and how errors are answered.

use vstd::prelude::*;
use vstd::string::*;
use crate::axum_integration::{header_view, read_header, read_user, user_view};
use crate::text::{decimal, decimal_text};
use crate::types::{ErrorView, IdempotencyError};

verus! {

/// The method under which unary calls are recorded.
pub const UNARY: &'static str = "UNARY";

/// A service as it may be described to callers.
pub const EXAMPLE_PROTO: &'static str = r#"
syntax = "proto3";

package orders.v1;

service OrderService {
    rpc CreateOrder(CreateOrderRequest) returns (CreateOrderResponse);
}

message CreateOrderRequest {
    // Required: Client-generated idempotency key (UUID v4)
    string idempotency_key = 1;
    
    string symbol = 2;
    uint32 quantity = 3;
    double price = 4;
}

message CreateOrderResponse {
    string order_id = 1;
    string status = 2;
    double total = 3;
}
"#;

/// The status codes that the interceptor gives.
#[derive(Clone, Copy, Debug, PartialEq, Eq, Structural)]
pub enum GrpcCode {
    InvalidArgument,
    Aborted,
    FailedPrecondition,
    Internal,
}

/// A status code and its message.
#[derive(Debug)]
pub struct GrpcStatus {
    pub code: GrpcCode,
    pub message: String,
}

/// A `GrpcStatus` over views.
pub struct GrpcStatusView {
    pub code: GrpcCode,
    pub message: Seq<char>,
}

impl View for GrpcStatus {
    type V = GrpcStatusView;

    open spec fn view(&self) -> GrpcStatusView {
        GrpcStatusView { code: self.code, message: self.message@ }
    }
}

/// Under which key, for which user and by which method a call is recorded.
#[derive(Debug)]
pub struct CallScope {
    pub key: String,
    pub user_id: String,
    pub method: String,
}

/// Reads from the metadata `idempotency-key` and `user-id` how a unary call is
/// recorded. A call without a key is turned away; one without a user is anonymous.
pub fn intercept(idempotency_key: Option<&[u8]>, user_id: Option<&[u8]>) -> (res: Result<
    CallScope,
    GrpcStatus,
>)
    ensures
        match res {
            Ok(scope) => {
                &&& header_view(idempotency_key) == Some(scope.key@)
                &&& scope.user_id@ == user_view(user_id)
                &&& scope.method@ == UNARY@
            },
            Err(status) => {
                &&& header_view(idempotency_key) is None
                &&& status.code is InvalidArgument
                &&& status.message@ == "Missing idempotency-key in metadata"@
            },
        },
{
    match read_header(idempotency_key) {
        Some(key) => Ok(
            CallScope { key, user_id: read_user(user_id), method: UNARY.to_string() },
        ),
        None => Err(
            GrpcStatus {
                code: GrpcCode::InvalidArgument,
                message: "Missing idempotency-key in metadata".to_string(),
            },
        ),
    }
}

/// The status in which an error is told to a caller.
pub open spec fn error_status(e: ErrorView) -> GrpcStatusView {
    match e {
        ErrorView::RequestInProgress { retry_after } => GrpcStatusView {
            code: GrpcCode::Aborted,
            message: "Request in progress, retry after "@ + decimal(retry_after as nat)
                + " seconds"@,
        },
        ErrorView::KeyReusedWithDifferentRequest => GrpcStatusView {
            code: GrpcCode::FailedPrecondition,
            message: "Idempotency key reused with different request"@,
        },
        _ => GrpcStatusView { code: GrpcCode::Internal, message: e.message() },
    }
}

/// Tells a caller of an error.
pub fn status_of_error(e: &IdempotencyError) -> (res: GrpcStatus)
    ensures
        res@ == error_status(e@),
{
    match e {
        IdempotencyError::RequestInProgress { retry_after } => GrpcStatus {
            code: GrpcCode::Aborted,
            message: "Request in progress, retry after ".to_string().concat(
                decimal_text(*retry_after).as_str(),
            ).concat(" seconds"),
        },
        IdempotencyError::KeyReusedWithDifferentRequest => GrpcStatus {
            code: GrpcCode::FailedPrecondition,
            message: "Idempotency key reused with different request".to_string(),
        },
        _ => GrpcStatus { code: GrpcCode::Internal, message: e.message() },
    }
}

/// Tells a caller that the stored response could not be read, `cause` being why.
pub fn undecodable_response(cause: &str) -> (res: GrpcStatus)
    ensures
        res.code is Internal,
        res.message@ == "Failed to deserialize cached response: "@ + cause@,
{
    GrpcStatus {
        code: GrpcCode::Internal,
        message: "Failed to deserialize cached response: ".to_string().concat(cause),
    }
}

} // verus!
