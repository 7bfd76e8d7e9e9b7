use idempotency_rs::rows::{
    assemble_record, deserialize_status, record_from_row, row_from_record, serialize_status,
    StoredRow,
};
use idempotency_rs::{
    CachedResponse, IdempotencyError, IdempotencyRecord, IdempotencyStatus, Timestamp,
};
use std::collections::HashMap;

fn text(s: &str) -> String {
    s.to_string()
}

fn row() -> StoredRow {
    StoredRow {
        key: text("key1"),
        user_id: text("user1"),
        request_path: text("/orders"),
        request_method: text("POST"),
        request_fingerprint: text("fingerprint1"),
        status: text("completed"),
        response_status_code: Some(201),
        response_headers: Some(text("{\"X-Order-ID\":\"order123\"}")),
        response_body: Some(vec![1, 2, 3]),
        created_at: text("2024-01-02T03:04:05+00:00"),
        expires_at: text("2024-01-03T03:04:05+00:00"),
        locked_until: Some(text("2024-01-02T03:04:35.5+00:00")),
    }
}

fn record() -> IdempotencyRecord {
    IdempotencyRecord {
        key: text("key1"),
        user_id: text("user1"),
        request_path: text("/orders"),
        request_method: text("POST"),
        request_fingerprint: text("fingerprint1"),
        status: IdempotencyStatus::Pending,
        response: None,
        created_at: Timestamp { secs: 1_704_164_645, nanos: 0 },
        expires_at: Timestamp { secs: 1_704_251_045, nanos: 120_000_000 },
        locked_until: Some(Timestamp { secs: 1_704_164_675, nanos: 1_500 }),
    }
}

#[test]
fn every_status_reads_back() {
    for (status, stored) in [
        (IdempotencyStatus::Pending, "pending"),
        (IdempotencyStatus::Completed, "completed"),
        (IdempotencyStatus::Failed { is_retryable: true }, "failed:retryable"),
        (IdempotencyStatus::Failed { is_retryable: false }, "failed:permanent"),
    ] {
        assert_eq!(serialize_status(&status), stored);
        assert_eq!(deserialize_status(stored), status);
    }
}

#[test]
fn an_unknown_status_is_pending() {
    for stored in ["", "Completed", "failed", "failed:", "completed "] {
        assert_eq!(deserialize_status(stored), IdempotencyStatus::Pending);
    }
}

#[test]
fn a_record_is_written_column_by_column() {
    let written = row_from_record(&record());
    assert_eq!(written.key, "key1");
    assert_eq!(written.user_id, "user1");
    assert_eq!(written.request_path, "/orders");
    assert_eq!(written.request_method, "POST");
    assert_eq!(written.request_fingerprint, "fingerprint1");
    assert_eq!(written.status, "pending");
    assert_eq!(written.response_status_code, None);
    assert_eq!(written.response_headers, None);
    assert_eq!(written.response_body, None);
    assert_eq!(written.created_at, "2024-01-02T03:04:05+00:00");
    assert_eq!(written.expires_at, "2024-01-03T03:04:05.120+00:00");
    assert_eq!(written.locked_until, Some(text("2024-01-02T03:04:35.000001500+00:00")));
}

#[test]
fn a_response_is_written_in_three_columns() {
    let mut headers = HashMap::new();
    headers.insert(text("X-\"Q\""), text("a\nb"));
    let mut answered = record();
    answered.response = Some(CachedResponse { status_code: 65_535, headers, body: vec![] });
    answered.locked_until = None;
    let written = row_from_record(&answered);
    assert_eq!(written.response_status_code, Some(65_535));
    assert_eq!(written.response_headers, Some(text("{\"X-\\\"Q\\\"\":\"a\\nb\"}")));
    assert_eq!(written.response_body, Some(vec![]));
    assert_eq!(written.locked_until, None);
}

#[test]
fn a_row_is_read_column_by_column() {
    let read = record_from_row(row()).unwrap();
    assert_eq!(read.key, "key1");
    assert_eq!(read.user_id, "user1");
    assert_eq!(read.request_path, "/orders");
    assert_eq!(read.request_method, "POST");
    assert_eq!(read.request_fingerprint, "fingerprint1");
    assert_eq!(read.status, IdempotencyStatus::Completed);
    let response = read.response.unwrap();
    assert_eq!(response.status_code, 201);
    assert_eq!(response.headers.len(), 1);
    assert_eq!(response.headers.get("X-Order-ID").unwrap(), "order123");
    assert_eq!(response.body, vec![1, 2, 3]);
    assert_eq!(read.created_at, Timestamp { secs: 1_704_164_645, nanos: 0 });
    assert_eq!(read.expires_at, Timestamp { secs: 1_704_251_045, nanos: 0 });
    assert_eq!(read.locked_until, Some(Timestamp { secs: 1_704_164_675, nanos: 500_000_000 }));
}

#[test]
fn a_record_reads_back_as_it_was_written() {
    for (created, expires) in [(0, 253_402_300_799), (-62_167_219_200, 59), (1, 951_782_400)] {
        for nanos in [0, 1, 999_999_999, 5_000_000] {
            let mut written = record();
            written.created_at = Timestamp { secs: created, nanos };
            written.expires_at = Timestamp { secs: expires, nanos };
            let read = record_from_row(row_from_record(&written)).unwrap();
            assert_eq!(read.created_at, written.created_at);
            assert_eq!(read.expires_at, written.expires_at);
            assert_eq!(read.locked_until, written.locked_until);
            assert_eq!(read.status, written.status);
            assert!(read.response.is_none());
        }
    }
}

#[test]
fn a_leap_second_reads_back() {
    let mut written = record();
    written.created_at = Timestamp { secs: 1_483_228_799, nanos: 1_250_000_000 };
    let row = row_from_record(&written);
    assert_eq!(row.created_at, "2016-12-31T23:59:60.250+00:00");
    assert_eq!(record_from_row(row).unwrap().created_at, written.created_at);
}

#[test]
fn texts_of_instants_are_ordered_as_the_instants_are() {
    let instants = [
        Timestamp { secs: -62_167_219_200, nanos: 0 },
        Timestamp { secs: -1, nanos: 999_999_999 },
        Timestamp { secs: 0, nanos: 0 },
        Timestamp { secs: 0, nanos: 1 },
        Timestamp { secs: 0, nanos: 1_000 },
        Timestamp { secs: 0, nanos: 1_000_000 },
        Timestamp { secs: 0, nanos: 1_000_001 },
        Timestamp { secs: 0, nanos: 999_000_000 },
        Timestamp { secs: 59, nanos: 999_999_999 },
        Timestamp { secs: 59, nanos: 1_000_000_000 },
        Timestamp { secs: 59, nanos: 1_000_000_001 },
        Timestamp { secs: 60, nanos: 0 },
        Timestamp { secs: 253_402_300_799, nanos: 999_999_999 },
    ];
    let texts: Vec<String> = instants
        .iter()
        .map(|at| {
            let mut written = record();
            written.created_at = *at;
            row_from_record(&written).created_at
        })
        .collect();
    for i in 1..texts.len() {
        assert!(texts[i - 1] < texts[i], "{} {}", texts[i - 1], texts[i]);
    }
}

#[test]
fn a_year_of_five_digits_is_written_but_not_read() {
    let mut written = record();
    written.expires_at = Timestamp { secs: 253_402_300_800, nanos: 0 };
    let row = row_from_record(&written);
    assert_eq!(row.expires_at, "+10000-01-01T00:00:00+00:00");
    assert!(matches!(record_from_row(row), Err(IdempotencyError::StorageError(_))));
}

#[test]
fn other_offsets_are_taken_in_utc() {
    let mut offset = row();
    offset.created_at = text("2024-01-02T05:34:05+02:30");
    offset.expires_at = text("2024-01-02T20:04:05-07:00");
    let read = record_from_row(offset).unwrap();
    assert_eq!(read.created_at, Timestamp { secs: 1_704_164_645, nanos: 0 });
    assert_eq!(read.expires_at, Timestamp { secs: 1_704_251_045, nanos: 0 });
}

#[test]
fn an_instant_that_cannot_be_read_is_a_storage_error() {
    let mut broken = row();
    broken.created_at = text("the day before yesterday");
    assert!(matches!(
        record_from_row(broken),
        Err(IdempotencyError::StorageError(m)) if m == "input contains invalid characters"
    ));
    let mut broken = row();
    broken.expires_at = text("2024-01-02");
    assert!(matches!(
        record_from_row(broken),
        Err(IdempotencyError::StorageError(m)) if m == "premature end of input"
    ));
    let mut broken = row();
    broken.created_at = text("the day before yesterday");
    broken.expires_at = text("");
    assert!(matches!(
        record_from_row(broken),
        Err(IdempotencyError::StorageError(m)) if m == "input contains invalid characters"
    ));
}

#[test]
fn a_lock_that_cannot_be_read_is_no_lock() {
    let mut broken = row();
    broken.locked_until = Some(text("soon"));
    assert_eq!(record_from_row(broken).unwrap().locked_until, None);
    let mut unlocked = row();
    unlocked.locked_until = None;
    assert_eq!(record_from_row(unlocked).unwrap().locked_until, None);
}

#[test]
fn missing_parts_of_a_response_are_empty() {
    let mut bare = row();
    bare.response_headers = None;
    bare.response_body = None;
    let response = record_from_row(bare).unwrap().response.unwrap();
    assert!(response.headers.is_empty());
    assert!(response.body.is_empty());

    for json in ["", "{", "[]", "{\"a\":1}", "null"] {
        let mut broken = row();
        broken.response_headers = Some(text(json));
        assert!(record_from_row(broken).unwrap().response.unwrap().headers.is_empty(), "{}", json);
    }
}

#[test]
fn without_a_status_code_there_is_no_response() {
    let mut bare = row();
    bare.response_status_code = None;
    assert!(record_from_row(bare).unwrap().response.is_none());
}

#[test]
fn a_status_code_is_cut_to_sixteen_bits() {
    let mut wide = row();
    wide.response_status_code = Some(65_536 + 404);
    assert_eq!(record_from_row(wide).unwrap().response.unwrap().status_code, 404);
    let mut negative = row();
    negative.response_status_code = Some(-1);
    assert_eq!(record_from_row(negative).unwrap().response.unwrap().status_code, 65_535);
}

#[test]
fn a_record_is_put_together_from_what_was_read() {
    let at = Timestamp { secs: 7, nanos: 8 };
    let read = assemble_record(row(), None, Ok(at), Ok(at), None).unwrap();
    assert_eq!(read.created_at, at);
    assert_eq!(read.expires_at, at);
    assert_eq!(read.locked_until, None);
    assert!(read.response.unwrap().headers.is_empty());

    let first = assemble_record(row(), None, Err(text("one")), Err(text("two")), None);
    assert!(matches!(first, Err(IdempotencyError::StorageError(m)) if m == "one"));
    let second = assemble_record(row(), None, Ok(at), Err(text("two")), None);
    assert!(matches!(second, Err(IdempotencyError::StorageError(m)) if m == "two"));
}
