use idempotency_rs::middleware::{
    after_handler, after_lock, after_settlement, check_key_bits, HandlerReply, NextStep, Settlement,
};
use idempotency_rs::time::MAX_SECONDS;
use idempotency_rs::{
    CachedResponse, Duration, IdempotencyError, IdempotencyMiddleware, IdempotencyRecord,
    IdempotencyStatus, LockResult, Timestamp,
};
use std::collections::HashMap;

const KEY: &str = "550e8400-e29b-41d4-a716-446655440000";

fn text(s: &str) -> String {
    s.to_string()
}

fn response(status_code: u16) -> CachedResponse {
    let mut headers = HashMap::new();
    headers.insert(text("X-Order-ID"), text("order123"));
    CachedResponse { status_code, headers, body: vec![1, 2, 3] }
}

fn reply(status_code: u16) -> HandlerReply {
    let CachedResponse { status_code, headers, body } = response(status_code);
    HandlerReply { status_code, headers, body: Ok(body) }
}

fn begin(key: Option<&str>, now: Timestamp) -> Result<IdempotencyRecord, IdempotencyError> {
    IdempotencyMiddleware::new(()).process_request_at(
        key.map(text),
        text("user123"),
        text("/orders"),
        text("POST"),
        Some(text("{\"symbol\":\"AAPL\"}")),
        now,
    )
}

#[test]
fn a_key_is_a_uuid_of_version_4() {
    assert!(IdempotencyMiddleware::<()>::validate_key(KEY).is_ok());
    assert!(IdempotencyMiddleware::<()>::validate_key("550E8400E29B41D4A716446655440000").is_ok());
    assert!(
        IdempotencyMiddleware::<()>::validate_key("{550e8400-e29b-41d4-a716-446655440000}").is_ok()
    );
    assert!(IdempotencyMiddleware::<()>::validate_key(
        "urn:uuid:550e8400-e29b-41d4-a716-446655440000"
    )
    .is_ok());
    assert!(IdempotencyMiddleware::<()>::validate_key(&uuid::Uuid::new_v4().to_string()).is_ok());
}

#[test]
fn all_other_keys_are_malformed() {
    for key in [
        "",
        "not-a-uuid",
        "550e8400-e29b-41d4-a716-44665544000",
        "550e8400-e29b-41d4-a716-44665544000g",
        "550e8400-e29b-11d4-a716-446655440000",
        "550e8400-e29b-51d4-a716-446655440000",
        "550e8400-e29b-71d4-a716-446655440000",
        "00000000-0000-0000-0000-000000000000",
        "ffffffff-ffff-ffff-ffff-ffffffffffff",
    ] {
        let refused = IdempotencyMiddleware::<()>::validate_key(key);
        assert!(matches!(refused, Err(IdempotencyError::InvalidKeyFormat)), "{}", key);
    }
}

#[test]
fn the_version_is_the_thirteenth_hexadecimal_digit() {
    assert!(check_key_bits(Some(0x550e8400_e29b_41d4_a716_446655440000)).is_ok());
    assert!(check_key_bits(Some(0x00000000_0000_4000_0000_000000000000)).is_ok());
    assert!(check_key_bits(Some(0x44444444_4444_3444_4444_444444444444)).is_err());
    assert!(check_key_bits(Some(0x00000004_0004_0004_0004_000000000004)).is_err());
    assert!(matches!(check_key_bits(None), Err(IdempotencyError::InvalidKeyFormat)));
}

#[test]
fn a_fingerprint_is_the_sha_256_of_the_request_in_hexadecimal() {
    assert_eq!(
        IdempotencyMiddleware::<()>::generate_fingerprint(Some(text("{\"symbol\":\"AAPL\"}"))),
        "81c8d84ddf020b1584fa351351da6f46b756261e048fe93502b5f5c3fdc1e526"
    );
    assert_eq!(
        IdempotencyMiddleware::<()>::generate_fingerprint(Some(text("abc"))),
        "ba7816bf8f01cfea414140de5dae2223b00361a396177a9cb410ff61f20015ad"
    );
}

#[test]
fn a_request_without_json_counts_as_empty() {
    let empty = "e3b0c44298fc1c149afbf4c8996fb92427ae41e4649b934ca495991b7852b855";
    assert_eq!(IdempotencyMiddleware::<()>::generate_fingerprint(None), empty);
    assert_eq!(IdempotencyMiddleware::<()>::generate_fingerprint(Some(String::new())), empty);
}

#[test]
fn equal_requests_have_equal_fingerprints_and_others_do_not() {
    let fingerprint = |json: &str| IdempotencyMiddleware::<()>::generate_fingerprint(Some(text(json)));
    assert_eq!(fingerprint("{\"a\":1}"), fingerprint("{\"a\":1}"));
    assert_ne!(fingerprint("{\"a\":1}"), fingerprint("{\"a\":2}"));
}

#[test]
fn a_request_begins_with_a_pending_record() {
    let now = Timestamp { secs: 1_700_000_000, nanos: 250_000_000 };
    let record = begin(Some(KEY), now).unwrap();
    assert_eq!(record.key, KEY);
    assert_eq!(record.user_id, "user123");
    assert_eq!(record.request_path, "/orders");
    assert_eq!(record.request_method, "POST");
    assert_eq!(
        record.request_fingerprint,
        "81c8d84ddf020b1584fa351351da6f46b756261e048fe93502b5f5c3fdc1e526"
    );
    assert_eq!(record.status, IdempotencyStatus::Pending);
    assert!(record.response.is_none());
    assert_eq!(record.created_at, now);
    assert_eq!(record.expires_at, Timestamp { secs: 1_700_086_400, nanos: 250_000_000 });
    assert_eq!(record.locked_until, Some(Timestamp { secs: 1_700_000_030, nanos: 250_000_000 }));
    assert!(record.is_valid());
}

#[test]
fn a_record_outside_the_calendar_is_not_valid() {
    let now = Timestamp { secs: 1_700_000_000, nanos: 0 };
    let mut record = begin(Some(KEY), now).unwrap();
    record.locked_until = Some(Timestamp { secs: MAX_SECONDS + 1, nanos: 0 });
    assert!(!record.is_valid());
    record.locked_until = None;
    assert!(record.is_valid());
    record.expires_at = Timestamp { secs: 0, nanos: 2_000_000_000 };
    assert!(!record.is_valid());
}

#[test]
fn deadlines_carry_nanoseconds_over_and_may_lie_in_the_past() {
    let middleware = IdempotencyMiddleware::with_config(
        (),
        Duration { secs: 1, nanos: 900_000_000 },
        Duration { secs: -1, nanos: 0 },
    );
    let now = Timestamp { secs: 100, nanos: 200_000_000 };
    let record = middleware.pending_record(
        text(KEY),
        text("user123"),
        text("/orders"),
        text("POST"),
        text("fingerprint1"),
        now,
    );
    assert_eq!(record.expires_at, Timestamp { secs: 102, nanos: 100_000_000 });
    assert_eq!(record.locked_until, Some(Timestamp { secs: 99, nanos: 200_000_000 }));
    assert_eq!(record.request_fingerprint, "fingerprint1");
}

#[test]
fn a_request_without_a_sound_key_is_turned_away() {
    let now = Timestamp { secs: 1_700_000_000, nanos: 0 };
    assert!(matches!(begin(None, now), Err(IdempotencyError::MissingIdempotencyKey)));
    assert!(matches!(begin(Some("not-a-uuid"), now), Err(IdempotencyError::InvalidKeyFormat)));
}

#[test]
fn a_request_begins_at_the_time_of_the_clock() {
    let before = chrono::Utc::now().timestamp();
    let record = IdempotencyMiddleware::new(())
        .process_request(Some(text(KEY)), text("user123"), text("/orders"), text("POST"), None)
        .unwrap()
        .unwrap();
    let after = chrono::Utc::now().timestamp();
    assert!(before <= record.created_at.secs && record.created_at.secs <= after);
    assert_eq!(record.expires_at.secs, record.created_at.secs + 24 * 3600);
    assert_eq!(record.expires_at.nanos, record.created_at.nanos);
}

#[test]
fn deadlines_past_the_end_of_the_calendar_give_nothing() {
    let long = Duration { secs: 9_000_000_000_000, nanos: 0 };
    let short = Duration { secs: 30, nanos: 0 };
    for middleware in [
        IdempotencyMiddleware::with_config((), long, short),
        IdempotencyMiddleware::with_config((), short, long),
    ] {
        let begun = |key: Option<String>| {
            middleware.process_request(key, text("user123"), text("/orders"), text("POST"), None)
        };
        assert!(begun(Some(text(KEY))).is_none());
        assert!(matches!(begun(None), Some(Err(IdempotencyError::MissingIdempotencyKey))));
        assert!(matches!(
            begun(Some(text("not-a-uuid"))),
            Some(Err(IdempotencyError::InvalidKeyFormat))
        ));
    }
}

#[test]
fn a_request_begins_exactly_where_its_deadlines_fit() {
    let middleware = IdempotencyMiddleware::new(());
    let begun = |key: Option<&str>, secs: i64| {
        let now = Timestamp { secs, nanos: 999_999_999 };
        middleware.begin_at(
            key.map(text),
            text("user123"),
            text("/orders"),
            text("POST"),
            Some(text("{\"symbol\":\"AAPL\"}")),
            now,
        )
    };
    let last = begun(Some(KEY), MAX_SECONDS - 86_400).unwrap().unwrap();
    assert_eq!(last.expires_at, Timestamp { secs: MAX_SECONDS, nanos: 999_999_999 });
    assert!(begun(Some(KEY), MAX_SECONDS - 86_399).is_none());

    let record = begun(Some(KEY), 1_700_000_000).unwrap().unwrap();
    assert_eq!(record.key, KEY);
    assert_eq!(record.status, IdempotencyStatus::Pending);
    assert_eq!(record.expires_at.secs, 1_700_086_400);
    assert_eq!(
        record.request_fingerprint,
        "81c8d84ddf020b1584fa351351da6f46b756261e048fe93502b5f5c3fdc1e526"
    );

    for secs in [0, MAX_SECONDS] {
        assert!(matches!(
            begun(None, secs),
            Some(Err(IdempotencyError::MissingIdempotencyKey))
        ));
        assert!(matches!(
            begun(Some("not-a-uuid"), secs),
            Some(Err(IdempotencyError::InvalidKeyFormat))
        ));
    }
}

#[test]
fn the_middleware_gives_its_store_back() {
    assert_eq!(*IdempotencyMiddleware::new(7u32).store(), 7);
    let span = Duration { secs: 1, nanos: 0 };
    assert_eq!(*IdempotencyMiddleware::with_config(8u32, span, span).store(), 8);
}

#[test]
fn the_handler_runs_only_under_the_lock() {
    assert!(matches!(after_lock(LockResult::Acquired), NextStep::RunHandler));
    assert!(matches!(
        after_lock(LockResult::AlreadyCompleted(response(200))),
        NextStep::Respond(r) if r.status_code == 200 && r.body == vec![1, 2, 3]
    ));
    assert!(matches!(
        after_lock(LockResult::FailedPermanently(response(400))),
        NextStep::Respond(r) if r.status_code == 400
    ));
    assert!(matches!(
        after_lock(LockResult::InProgress { retry_after: 17 }),
        NextStep::Refuse(IdempotencyError::RequestInProgress { retry_after: 17 })
    ));
    assert!(matches!(
        after_lock(LockResult::KeyReused),
        NextStep::Refuse(IdempotencyError::KeyReusedWithDifferentRequest)
    ));
}

#[test]
fn the_status_code_tells_how_a_request_ends() {
    for (code, expected) in [
        (0, IdempotencyStatus::Completed),
        (200, IdempotencyStatus::Completed),
        (399, IdempotencyStatus::Completed),
        (400, IdempotencyStatus::Failed { is_retryable: false }),
        (499, IdempotencyStatus::Failed { is_retryable: false }),
        (500, IdempotencyStatus::Failed { is_retryable: true }),
        (u16::MAX, IdempotencyStatus::Failed { is_retryable: true }),
    ] {
        match after_handler(Ok(reply(code))) {
            Settlement::Complete { status, response } => {
                assert_eq!(status, expected);
                assert_eq!(response.status_code, code);
                assert_eq!(response.headers.get("X-Order-ID").unwrap(), "order123");
                assert_eq!(response.body, vec![1, 2, 3]);
            }
            _ => panic!("{}", code),
        }
    }
}

#[test]
fn a_body_that_cannot_be_written_abandons_the_request() {
    let mut unwritten = reply(200);
    unwritten.body = Err(text("key must be a string"));
    let settled = after_handler(Ok(unwritten));
    assert!(matches!(
        &settled,
        Settlement::Abandon { error: IdempotencyError::StorageError(m) } if m == "key must be a string"
    ));
    assert!(matches!(
        after_settlement(settled, Ok(())),
        Err(IdempotencyError::StorageError(m)) if m == "key must be a string"
    ));
}

#[test]
fn a_failed_handler_gives_the_lock_back() {
    assert!(matches!(
        after_handler(Err(IdempotencyError::HandlerFailed(text("down")))),
        Settlement::Release { is_retryable: true, error: IdempotencyError::HandlerFailed(_) }
    ));
    assert!(matches!(
        after_handler(Err(IdempotencyError::ConcurrentRequestConflict)),
        Settlement::Release { is_retryable: false, error: IdempotencyError::ConcurrentRequestConflict }
    ));
}

#[test]
fn the_answer_is_what_the_handler_gave_once_it_is_stored() {
    let settled = after_handler(Ok(reply(201)));
    let answer = after_settlement(settled, Ok(())).unwrap();
    assert_eq!(answer.status_code, 201);
    assert_eq!(answer.headers, response(201).headers);
    assert_eq!(answer.body, response(201).body);

    let failed = after_handler(Err(IdempotencyError::HandlerFailed(text("down"))));
    assert!(matches!(
        after_settlement(failed, Ok(())),
        Err(IdempotencyError::HandlerFailed(m)) if m == "down"
    ));
}

#[test]
fn a_failing_store_is_what_is_told() {
    let disk_full = || Err(IdempotencyError::StorageError(text("disk full")));
    assert!(matches!(
        after_settlement(after_handler(Ok(reply(200))), disk_full()),
        Err(IdempotencyError::StorageError(m)) if m == "disk full"
    ));
    let failed = after_handler(Err(IdempotencyError::HandlerFailed(text("down"))));
    assert!(matches!(
        after_settlement(failed, disk_full()),
        Err(IdempotencyError::StorageError(m)) if m == "disk full"
    ));
}
