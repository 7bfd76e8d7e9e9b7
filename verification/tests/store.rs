use idempotency_rs::rows::{row_from_record, StoredRow};
use idempotency_rs::sqlite_store::{
    cleanup_expired, cleanup_expired_at, complete_with_response, decide_lock,
    execute_in_transaction, get, release_lock_on_failure, transaction_end, try_acquire_lock,
    try_acquire_lock_at, LockDecision, TransactionEnd,
};
use idempotency_rs::statements::{
    SqlValue, StoreUpdate, DELETE_EXPIRED_SQL, FINISH_SQL, INSERT_SQL, RELOCK_SQL,
};
use idempotency_rs::{
    CachedResponse, IdempotencyError, IdempotencyRecord, IdempotencyStatus, LockResult, Timestamp,
};
use std::collections::HashMap;

const NOW: Timestamp = Timestamp { secs: 1_704_164_645, nanos: 0 };

fn text(s: &str) -> String {
    s.to_string()
}

fn response() -> CachedResponse {
    let mut headers = HashMap::new();
    headers.insert(text("X-Order-ID"), text("order123"));
    CachedResponse { status_code: 201, headers, body: vec![1, 2, 3] }
}

fn record(
    status: IdempotencyStatus,
    response: Option<CachedResponse>,
    locked_until: Option<Timestamp>,
) -> IdempotencyRecord {
    IdempotencyRecord {
        key: text("key1"),
        user_id: text("user1"),
        request_path: text("/orders"),
        request_method: text("POST"),
        request_fingerprint: text("fingerprint1"),
        status,
        response,
        created_at: NOW,
        expires_at: Timestamp { secs: NOW.secs + 86_400, nanos: 0 },
        locked_until,
    }
}

fn asked() -> IdempotencyRecord {
    record(
        IdempotencyStatus::Pending,
        None,
        Some(Timestamp { secs: NOW.secs + 30, nanos: 0 }),
    )
}

fn decide(existing: IdempotencyRecord) -> LockResult {
    decide_lock(existing, &text("fingerprint1"), &NOW)
}

fn on(existing: &IdempotencyRecord) -> LockDecision {
    try_acquire_lock_at(Some(row_from_record(existing)), &asked(), &NOW).unwrap()
}

#[test]
fn another_fingerprint_is_a_reused_key_in_every_state() {
    let lock = Some(Timestamp { secs: NOW.secs + 30, nanos: 0 });
    for existing in [
        record(IdempotencyStatus::Pending, None, lock),
        record(IdempotencyStatus::Pending, None, None),
        record(IdempotencyStatus::Completed, Some(response()), None),
        record(IdempotencyStatus::Completed, None, None),
        record(IdempotencyStatus::Failed { is_retryable: true }, Some(response()), None),
        record(IdempotencyStatus::Failed { is_retryable: false }, Some(response()), None),
    ] {
        assert!(matches!(
            decide_lock(existing, &text("fingerprint2"), &NOW),
            LockResult::KeyReused
        ));
    }
}

#[test]
fn a_settled_request_gives_its_response() {
    assert!(matches!(
        decide(record(IdempotencyStatus::Completed, Some(response()), None)),
        LockResult::AlreadyCompleted(r) if r.status_code == 201 && r.body == vec![1, 2, 3]
    ));
    assert!(matches!(
        decide(record(IdempotencyStatus::Failed { is_retryable: false }, Some(response()), None)),
        LockResult::FailedPermanently(r) if r.headers == response().headers
    ));
}

#[test]
fn a_request_without_a_response_is_handled_again() {
    for existing in [
        record(IdempotencyStatus::Completed, None, None),
        record(IdempotencyStatus::Failed { is_retryable: false }, None, None),
        record(IdempotencyStatus::Failed { is_retryable: true }, None, None),
        record(IdempotencyStatus::Failed { is_retryable: true }, Some(response()), None),
        record(IdempotencyStatus::Pending, None, None),
        record(IdempotencyStatus::Pending, Some(response()), None),
    ] {
        assert!(matches!(decide(existing), LockResult::Acquired));
    }
}

#[test]
fn a_pending_request_holds_its_lock_until_the_instant() {
    for (secs, nanos, left) in [
        (NOW.secs + 30, 0, 30),
        (NOW.secs + 30, 999_999_999, 30),
        (NOW.secs, 1, 0),
        (NOW.secs + 1, 0, 1),
        (NOW.secs + 86_400 * 365, 0, 86_400 * 365),
    ] {
        let until = Some(Timestamp { secs, nanos });
        match decide(record(IdempotencyStatus::Pending, None, until)) {
            LockResult::InProgress { retry_after } => assert_eq!(retry_after, left),
            other => panic!("{:?}", other),
        }
    }
    for (secs, nanos) in [(NOW.secs, 0), (NOW.secs - 1, 999_999_999)] {
        let until = Some(Timestamp { secs, nanos });
        let taken = decide(record(IdempotencyStatus::Pending, None, until));
        assert!(matches!(taken, LockResult::Acquired));
    }
}

#[test]
fn retry_after_rounds_down_across_a_second() {
    let until = Some(Timestamp { secs: 110, nanos: 100_000_000 });
    let existing = record(IdempotencyStatus::Pending, None, until);
    let now = Timestamp { secs: 100, nanos: 900_000_000 };
    assert!(matches!(
        decide_lock(existing, &text("fingerprint1"), &now),
        LockResult::InProgress { retry_after: 9 }
    ));
}

#[test]
fn leap_seconds_are_counted_by_the_time_of_day() {
    for (until, now, left) in [
        // From a leap second to a later time of day.
        ((62, 0), (59, 1_900_000_000), 2),
        ((60, 100_000_000), (59, 1_900_000_000), 0),
        // From a leap second into the next day.
        ((86_400, 100_000_000), (86_399, 1_900_000_000), 0),
        ((86_410, 0), (86_399, 1_500_000_000), 9),
        // Within a leap second.
        ((59, 1_900_000_000), (59, 1_100_000_000), 0),
        ((59, 1_900_000_000), (59, 100_000_000), 1),
        // To a leap second.
        ((119, 1_500_000_000), (60, 300_000_000), 60),
        ((86_459, 1_500_000_000), (86_340, 0), 119),
        // From one leap second to another.
        ((119, 1_000_000_000), (59, 1_000_000_000), 61),
    ] {
        let until = Timestamp::new(until.0, until.1).unwrap();
        let now = Timestamp::new(now.0, now.1).unwrap();
        let existing = record(IdempotencyStatus::Pending, None, Some(until));
        match decide_lock(existing, &text("fingerprint1"), &now) {
            LockResult::InProgress { retry_after } => {
                assert_eq!(retry_after, left, "{:?} {:?}", until, now)
            }
            other => panic!("{:?}", other),
        }
    }
}

#[test]
fn the_first_request_is_put_in() {
    let decision = try_acquire_lock_at(None, &asked(), &NOW).unwrap();
    assert!(matches!(decision.result, LockResult::Acquired));
    assert_eq!(decision.transaction_end(), TransactionEnd::Commit);
    match decision.update {
        Some(StoreUpdate::Insert(row)) => {
            assert_eq!(row.key, "key1");
            assert_eq!(row.status, "pending");
            assert_eq!(row.created_at, "2024-01-02T03:04:05+00:00");
            assert_eq!(row.expires_at, "2024-01-03T03:04:05+00:00");
            assert_eq!(row.locked_until, Some(text("2024-01-02T03:04:35+00:00")));
        }
        other => panic!("{:?}", other),
    }
}

#[test]
fn a_record_goes_in_as_pending_whatever_its_status() {
    for status in [
        IdempotencyStatus::Completed,
        IdempotencyStatus::Failed { is_retryable: true },
        IdempotencyStatus::Failed { is_retryable: false },
    ] {
        let decision =
            try_acquire_lock_at(None, &record(status, Some(response()), None), &NOW).unwrap();
        assert!(matches!(decision.result, LockResult::Acquired));
        match decision.update {
            Some(StoreUpdate::Insert(row)) => {
                assert_eq!(row.status, "pending");
                assert_eq!(row.response_status_code, Some(201));
                assert_eq!(row.locked_until, None);
            }
            other => panic!("{:?}", other),
        }
    }
}

#[test]
fn one_who_waits_as_told_gets_the_lock() {
    let until = Timestamp { secs: NOW.secs + 30, nanos: 0 };
    let existing = record(IdempotencyStatus::Pending, None, Some(until));
    let ask = |secs: i64, nanos: u32| {
        let now = Timestamp { secs, nanos };
        try_acquire_lock_at(Some(row_from_record(&existing)), &asked(), &now).unwrap().result
    };
    let told = ask(NOW.secs, 500_000_000);
    assert!(matches!(told, LockResult::InProgress { retry_after: 29 }));
    assert!(matches!(ask(NOW.secs + 29, 499_999_999), LockResult::InProgress { retry_after: 0 }));
    assert!(matches!(ask(NOW.secs + 30, 500_000_000), LockResult::Acquired));
}

#[test]
fn a_lock_that_is_taken_over_is_written_anew() {
    let run_out = record(IdempotencyStatus::Pending, None, Some(NOW));
    let decision = on(&run_out);
    assert!(matches!(decision.result, LockResult::Acquired));
    assert_eq!(decision.transaction_end(), TransactionEnd::Commit);
    match decision.update {
        Some(StoreUpdate::Relock { key, user_id, status, locked_until, created_at }) => {
            assert_eq!(key, "key1");
            assert_eq!(user_id, "user1");
            assert_eq!(status, "pending");
            assert_eq!(locked_until, Some(text("2024-01-02T03:04:35+00:00")));
            assert_eq!(created_at, "2024-01-02T03:04:05+00:00");
        }
        other => panic!("{:?}", other),
    }
}

#[test]
fn what_is_not_taken_changes_nothing() {
    let mut other_request = record(IdempotencyStatus::Completed, Some(response()), None);
    other_request.request_fingerprint = text("fingerprint2");
    let held = Some(Timestamp { secs: NOW.secs + 5, nanos: 0 });
    for existing in [
        other_request,
        record(IdempotencyStatus::Pending, None, held),
        record(IdempotencyStatus::Completed, Some(response()), None),
        record(IdempotencyStatus::Failed { is_retryable: false }, Some(response()), None),
    ] {
        let decision = on(&existing);
        assert!(!matches!(decision.result, LockResult::Acquired));
        assert!(decision.update.is_none());
        assert_eq!(decision.transaction_end(), TransactionEnd::Rollback);
    }
}

#[test]
fn a_row_that_cannot_be_read_is_an_error() {
    let mut row = row_from_record(&asked());
    row.created_at = text("the day before yesterday");
    assert!(matches!(
        try_acquire_lock_at(Some(row.clone()), &asked(), &NOW),
        Err(IdempotencyError::StorageError(m)) if m == "input contains invalid characters"
    ));
    assert!(matches!(get(Some(row)), Err(IdempotencyError::StorageError(_))));
}

#[test]
fn the_lock_is_asked_for_by_the_clock() {
    let mut far = asked();
    far.locked_until = Some(Timestamp { secs: 253_402_300_799, nanos: 0 });
    let held = try_acquire_lock(Some(row_from_record(&far)), &asked()).unwrap();
    assert!(matches!(held.result, LockResult::InProgress { retry_after } if retry_after > 200_000_000_000));
    let long_gone = try_acquire_lock(Some(row_from_record(&asked())), &asked()).unwrap();
    assert!(matches!(long_gone.result, LockResult::Acquired));
}

#[test]
fn get_reads_the_row_if_there_is_one() {
    assert!(matches!(get(None), Ok(None)));
    let read = get(Some(row_from_record(&asked()))).unwrap().unwrap();
    assert_eq!(read.key, "key1");
    assert_eq!(read.locked_until, asked().locked_until);
}

fn texts(update: StoreUpdate) -> Vec<String> {
    update
        .into_params()
        .into_iter()
        .map(|value| match value {
            SqlValue::Text(t) => t,
            SqlValue::Integer(n) => format!("#{}", n),
            SqlValue::Blob(b) => format!("{:?}", b),
            SqlValue::Null => text("null"),
        })
        .collect()
}

#[test]
fn a_completion_writes_the_outcome() {
    let update =
        complete_with_response("key1", "user1", IdempotencyStatus::Completed, &Some(response()));
    assert_eq!(update.sql(), FINISH_SQL);
    assert_eq!(
        texts(update),
        vec!["completed", "#201", "{\"X-Order-ID\":\"order123\"}", "[1, 2, 3]", "key1", "user1"]
    );
}

#[test]
fn a_release_writes_a_failure() {
    let update = release_lock_on_failure("key1", "user1", true, &None);
    assert_eq!(update.sql(), FINISH_SQL);
    assert_eq!(texts(update), vec!["failed:retryable", "null", "null", "null", "key1", "user1"]);
    let update = release_lock_on_failure("key1", "user1", false, &Some(response()));
    assert_eq!(texts(update)[0], "failed:permanent");
}

#[test]
fn an_insert_gives_every_column_in_order() {
    let row = StoredRow {
        key: text("1"),
        user_id: text("2"),
        request_path: text("3"),
        request_method: text("4"),
        request_fingerprint: text("5"),
        status: text("6"),
        response_status_code: Some(7),
        response_headers: Some(text("8")),
        response_body: Some(vec![9]),
        created_at: text("10"),
        expires_at: text("11"),
        locked_until: None,
    };
    let update = StoreUpdate::Insert(row);
    assert_eq!(update.sql(), INSERT_SQL);
    assert_eq!(
        texts(update),
        vec!["1", "2", "3", "4", "5", "6", "#7", "8", "[9]", "10", "11", "null"]
    );
}

#[test]
fn a_relock_gives_its_row_last() {
    let update = StoreUpdate::Relock {
        key: text("key1"),
        user_id: text("user1"),
        status: text("pending"),
        locked_until: None,
        created_at: text("then"),
    };
    assert_eq!(update.sql(), RELOCK_SQL);
    assert_eq!(texts(update), vec!["pending", "null", "then", "key1", "user1"]);
}

#[test]
fn a_clean_up_names_its_instant() {
    let update = cleanup_expired_at(&NOW);
    assert_eq!(update.sql(), DELETE_EXPIRED_SQL);
    assert_eq!(texts(update), vec!["2024-01-02T03:04:05+00:00"]);
    let before = chrono::Utc::now().to_rfc3339();
    let by_the_clock = texts(cleanup_expired());
    let after = chrono::Utc::now().to_rfc3339();
    assert!(before <= by_the_clock[0] && by_the_clock[0] <= after);
}

#[test]
fn a_transaction_is_kept_where_its_work_succeeded() {
    assert_eq!(transaction_end(&Ok(1)), TransactionEnd::Commit);
    let failed: Result<u32, IdempotencyError> = Err(IdempotencyError::InvalidKeyFormat);
    assert_eq!(transaction_end(&failed), TransactionEnd::Rollback);
}

#[test]
fn a_transaction_gives_the_result_of_its_work() {
    assert!(matches!(execute_in_transaction(Ok(5), Ok(())), Ok(5)));
    let failed: Result<u32, IdempotencyError> = Err(IdempotencyError::InvalidKeyFormat);
    assert!(matches!(
        execute_in_transaction(failed, Ok(())),
        Err(IdempotencyError::InvalidKeyFormat)
    ));
    assert!(matches!(
        execute_in_transaction(Ok(5), Err(text("locked"))),
        Err(IdempotencyError::TransactionFailed(m)) if m == "locked"
    ));
}
