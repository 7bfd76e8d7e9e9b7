use idempotency_rs::IdempotencyError;

fn text(s: &str) -> String {
    s.to_string()
}

#[test]
fn every_error_has_its_message() {
    let cases = vec![
        (
            IdempotencyError::RequestInProgress { retry_after: 30 },
            "Request in progress (retry after 30 seconds)",
        ),
        (
            IdempotencyError::RequestInProgress { retry_after: 0 },
            "Request in progress (retry after 0 seconds)",
        ),
        (
            IdempotencyError::RequestInProgress { retry_after: u64::MAX },
            "Request in progress (retry after 18446744073709551615 seconds)",
        ),
        (
            IdempotencyError::KeyReusedWithDifferentRequest,
            "Idempotency key reused with different request",
        ),
        (IdempotencyError::MissingIdempotencyKey, "Missing idempotency key"),
        (IdempotencyError::StorageError(text("disk full")), "Storage error: disk full"),
        (IdempotencyError::InvalidKeyFormat, "Invalid idempotency key format"),
        (IdempotencyError::TransactionFailed(text("locked")), "Transaction failed: locked"),
        (IdempotencyError::ConcurrentRequestConflict, "Concurrent request conflict"),
        (IdempotencyError::HandlerFailed(text("no route")), "Handler execution failed: no route"),
    ];
    for (error, message) in cases {
        assert_eq!(error.message(), message);
    }
}

#[test]
fn storage_transaction_and_handler_errors_may_be_retried() {
    assert!(IdempotencyError::StorageError(text("")).is_retryable());
    assert!(IdempotencyError::TransactionFailed(text("")).is_retryable());
    assert!(IdempotencyError::HandlerFailed(text("")).is_retryable());
    assert!(!IdempotencyError::RequestInProgress { retry_after: 1 }.is_retryable());
    assert!(!IdempotencyError::KeyReusedWithDifferentRequest.is_retryable());
    assert!(!IdempotencyError::MissingIdempotencyKey.is_retryable());
    assert!(!IdempotencyError::InvalidKeyFormat.is_retryable());
    assert!(!IdempotencyError::ConcurrentRequestConflict.is_retryable());
}
