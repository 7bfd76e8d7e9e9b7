//! What holds of the calls of the store: rows read and written, locks, completions,
//! releases and clean-ups, and one after the other.

use std::collections::HashMap;
use vstd::prelude::*;
use vstd::utf8::encode_utf8;
use crate::headers::json_text_map;
use crate::laws::{
    law_hex_is_injective, law_record_reads_back, law_status_reads_back, law_wait_is_never_negative,
};
use crate::middleware::{after_handler, sha256, HandlerReply, IdempotencyMiddleware, Settlement};
use crate::request_laws::{same_error, same_response};
use crate::rows::{
    assemble_record, deserialize_status, record_from_row, row_from_record, serialize_status,
    StoredRow,
};
use crate::sqlite_store::{
    cleans_up, cleanup_expired, cleanup_expired_at, complete_with_response, decide_lock,
    decision_result_view, get, lock_decided, release_lock_on_failure, row_view, try_acquire_lock,
    try_acquire_lock_at, LockDecision,
};
use crate::statements::{SqlValue, StoreUpdate};
use crate::time::{
    clock_shows, is_clock_reading, rfc3339_instant, rfc3339_text, whole_seconds_between, Timestamp,
};
use crate::types::{
    text_map, CachedResponse, IdempotencyError, IdempotencyRecord, IdempotencyStatus, LockResult,
};

verus! {

/// Whether `text` is how a status is stored.
pub open spec fn stands_for(text: Seq<char>, status: IdempotencyStatus) -> bool {
    match status {
        IdempotencyStatus::Pending => text == "pending"@,
        IdempotencyStatus::Completed => text == "completed"@,
        IdempotencyStatus::Failed { is_retryable } => if is_retryable {
            text == "failed:retryable"@
        } else {
            text == "failed:permanent"@
        },
    }
}

/// Each status has its text, and the text is read as that status; a text that is none of them
/// is read as pending.
pub proof fn law_statuses_are_stored_as_texts(
    status: IdempotencyStatus,
    written: String,
    text: &str,
    read: IdempotencyStatus,
)
    requires
        call_ensures(serialize_status, (&status,), written),
        call_ensures(deserialize_status, (text,), read),
    ensures
        stands_for(written@, status),
        text@ == written@ ==> read == status,
        stands_for(text@, read) || read is Pending,
{
    law_status_reads_back(status);
}

/// Whether a column holds an instant.
pub open spec fn column_holds(text: Seq<char>, t: Timestamp) -> bool {
    text == rfc3339_text(t.secs, t.nanos)
}

/// Whether three columns hold a response, or nothing where there is none.
pub open spec fn columns_hold(
    status_code: Option<i32>,
    headers: Option<String>,
    body: Option<Vec<u8>>,
    response: Option<CachedResponse>,
) -> bool {
    match response {
        None => status_code is None && headers is None && body is None,
        Some(r) => {
            &&& status_code matches Some(code) && code == r.status_code
            &&& headers matches Some(text) && json_text_map(text@) == Some(text_map(r.headers@))
            &&& body matches Some(bytes) && bytes@ == r.body@
        },
    }
}

/// Whether a row holds a record, column by column, with this status.
pub open spec fn row_holds(
    row: StoredRow,
    record: IdempotencyRecord,
    status: IdempotencyStatus,
) -> bool {
    &&& row.key@ == record.key@
    &&& row.user_id@ == record.user_id@
    &&& row.request_path@ == record.request_path@
    &&& row.request_method@ == record.request_method@
    &&& row.request_fingerprint@ == record.request_fingerprint@
    &&& stands_for(row.status@, status)
    &&& columns_hold(
        row.response_status_code,
        row.response_headers,
        row.response_body,
        record.response,
    )
    &&& column_holds(row.created_at@, record.created_at)
    &&& column_holds(row.expires_at@, record.expires_at)
    &&& match record.locked_until {
        Some(until) => row.locked_until matches Some(text) && column_holds(text@, until),
        None => row.locked_until is None,
    }
}

/// A record is written column by column.
pub proof fn law_record_is_written_column_by_column(record: IdempotencyRecord, row: StoredRow)
    requires
        record@.valid(),
        call_ensures(row_from_record, (&record,), row),
    ensures
        row_holds(row, record, record.status),
{
}

/// Whether a record has what a row says, but for the headers and the instants: a status that is
/// unknown is pending.
pub open spec fn says_the_same(record: IdempotencyRecord, row: StoredRow) -> bool {
    &&& record.key@ == row.key@
    &&& record.user_id@ == row.user_id@
    &&& record.request_path@ == row.request_path@
    &&& record.request_method@ == row.request_method@
    &&& record.request_fingerprint@ == row.request_fingerprint@
    &&& record.status is Completed <==> row.status@ == "completed"@
    &&& record.status == (IdempotencyStatus::Failed { is_retryable: true }) <==> row.status@
        == "failed:retryable"@
    &&& record.status == (IdempotencyStatus::Failed { is_retryable: false }) <==> row.status@
        == "failed:permanent"@
    &&& record.response is Some <==> row.response_status_code is Some
    &&& row.response_status_code matches Some(code) ==> {
        let response = record.response->0;
        &&& response.status_code == code as u16
        &&& match row.response_body {
            Some(body) => response.body@ == body@,
            None => response.body@.len() == 0,
        }
    }
}

/// Whether a record has what a row says, column by column: a lock that cannot be read is none, and
/// headers that cannot be read or are not there are empty.
pub open spec fn read_from(record: IdempotencyRecord, row: StoredRow) -> bool {
    &&& says_the_same(record, row)
    &&& record.response matches Some(response) ==> match row.response_headers {
        Some(text) => text_map(response.headers@) == match json_text_map(text@) {
            Some(headers) => headers,
            None => Map::empty(),
        },
        None => text_map(response.headers@) == Map::<Seq<char>, Seq<char>>::empty(),
    }
    &&& rfc3339_instant(row.created_at@) == Ok::<(i64, u32), Seq<char>>(
        (record.created_at.secs, record.created_at.nanos),
    )
    &&& rfc3339_instant(row.expires_at@) == Ok::<(i64, u32), Seq<char>>(
        (record.expires_at.secs, record.expires_at.nanos),
    )
    &&& match row.locked_until {
        Some(text) => match rfc3339_instant(text@) {
            Ok((secs, nanos)) => record.locked_until == Some(Timestamp { secs, nanos }),
            Err(_) => record.locked_until is None,
        },
        None => record.locked_until is None,
    }
}

/// A row is read column by column; where `created_at`, or else `expires_at`, is no instant, that
/// is a storage error which says why.
pub proof fn law_row_is_read_column_by_column(
    row: StoredRow,
    res: Result<IdempotencyRecord, IdempotencyError>,
)
    requires
        call_ensures(record_from_row, (row,), res),
    ensures
        match (rfc3339_instant(row.created_at@), rfc3339_instant(row.expires_at@)) {
            (Err(message), _) => res matches Err(e) && e matches IdempotencyError::StorageError(
                text,
            ) && text@ == message,
            (Ok(_), Err(message)) => res matches Err(e) && e matches IdempotencyError::StorageError(
                text,
            ) && text@ == message,
            (Ok(_), Ok(_)) => res matches Ok(record) && read_from(record, row),
        },
{
    lemma_texts_differ();
}

proof fn lemma_texts_differ()
    ensures
        "completed"@ != "failed:retryable"@,
        "completed"@ != "failed:permanent"@,
        "failed:retryable"@ != "failed:permanent"@,
        "pending"@ != "completed"@,
        "pending"@ != "failed:retryable"@,
        "pending"@ != "failed:permanent"@,
{
    reveal_strlit("pending");
    reveal_strlit("completed");
    reveal_strlit("failed:retryable");
    reveal_strlit("failed:permanent");
    assert("pending"@[0] == 'p' && "completed"@[0] == 'c');
    assert("failed:retryable"@[0] == 'f' && "failed:permanent"@[0] == 'f');
    assert("failed:retryable"@[7] == 'r' && "failed:permanent"@[7] == 'p');
}

/// A record is put together from what was read: its row, and for the headers and the instants
/// what is handed in.
pub proof fn law_record_is_assembled_from_what_was_read(
    row: StoredRow,
    headers: Option<HashMap<String, String>>,
    created_at: Result<Timestamp, String>,
    expires_at: Result<Timestamp, String>,
    locked_until: Option<Timestamp>,
    res: Result<IdempotencyRecord, IdempotencyError>,
)
    requires
        call_ensures(assemble_record, (row, headers, created_at, expires_at, locked_until), res),
    ensures
        res is Ok <==> created_at is Ok && expires_at is Ok,
        created_at matches Err(message) ==> (res matches Err(e)
            && e matches IdempotencyError::StorageError(text) && text@ == message@),
        created_at is Ok && expires_at is Err ==> (res matches Err(e)
            && e matches IdempotencyError::StorageError(text) && text@ == expires_at->Err_0@),
        res matches Ok(record) ==> {
            &&& created_at == Ok::<Timestamp, String>(record.created_at)
            &&& expires_at == Ok::<Timestamp, String>(record.expires_at)
            &&& record.locked_until == locked_until
            &&& says_the_same(record, row)
            &&& record.response matches Some(response) ==> {
                &&& headers matches Some(map) ==> text_map(response.headers@) == text_map(map@)
                &&& headers is None ==> text_map(response.headers@) == Map::<
                    Seq<char>,
                    Seq<char>,
                >::empty()
            }
        },
{
    lemma_texts_differ();
}

/// What is asked for is there exactly where there is a row, and is what the row says.
pub proof fn law_get_reads_the_row(
    row: StoredRow,
    read: Result<IdempotencyRecord, IdempotencyError>,
    there: Result<Option<IdempotencyRecord>, IdempotencyError>,
    nothing: Result<Option<IdempotencyRecord>, IdempotencyError>,
)
    requires
        call_ensures(record_from_row, (row,), read),
        call_ensures(get, (Some(row),), there),
        call_ensures(get, (None,), nothing),
    ensures
        nothing matches Ok(None),
        match read {
            Ok(_) => there matches Ok(Some(record)) && read_from(record, row),
            Err(e) => there matches Err(told) && same_error(told, e),
        },
{
    lemma_texts_differ();
}

/// Whether `a` comes before `b`.
pub open spec fn comes_before(a: Timestamp, b: Timestamp) -> bool {
    a.secs < b.secs || (a.secs == b.secs && a.nanos < b.nanos)
}

/// Whether `result` is the right answer at `now` to a request with this fingerprint, `there` being
/// the record of its key and user. Another fingerprint is a reused key. A finished request with a
/// response that stands gives it again. A pending one is in progress as long as its lock lasts, and
/// tells the seconds left, rounded down. All else is free to run.
pub open spec fn answers(
    there: IdempotencyRecord,
    fingerprint: Seq<char>,
    now: Timestamp,
    result: LockResult,
) -> bool {
    let replayed = there.response is Some && (there.status is Completed || there.status == (
    IdempotencyStatus::Failed { is_retryable: false }));
    let held = there.status is Pending && there.locked_until is Some && comes_before(
        now,
        there.locked_until->0,
    );
    &&& result is KeyReused <==> there.request_fingerprint@ != fingerprint
    &&& there.request_fingerprint@ == fingerprint ==> {
        &&& result is InProgress <==> held
        &&& result is AlreadyCompleted <==> replayed && there.status is Completed
        &&& result is FailedPermanently <==> replayed && !(there.status is Completed)
        &&& result is Acquired <==> !held && !replayed
        &&& result matches LockResult::AlreadyCompleted(r) ==> same_response(r, there.response->0)
        &&& result matches LockResult::FailedPermanently(r) ==> same_response(r, there.response->0)
        &&& result matches LockResult::InProgress { retry_after } ==> {
            let until = there.locked_until->0;
            let left = (until.secs - now.secs) * 1_000_000_000 + until.nanos - now.nanos;
            &&& retry_after == whole_seconds_between(until, now)
            &&& until.nanos < 1_000_000_000 && now.nanos < 1_000_000_000 ==> retry_after
                * 1_000_000_000 <= left < (retry_after + 1) * 1_000_000_000
        }
    }
}

/// A request for the lock of a record that is there gets the right answer.
pub proof fn law_lock_is_answered_by_the_record(
    there: IdempotencyRecord,
    fingerprint: String,
    now: Timestamp,
    res: LockResult,
)
    requires
        there@.valid(),
        now.valid(),
        call_ensures(decide_lock, (there, &fingerprint, &now), res),
    ensures
        answers(there, fingerprint@, now, res),
{
    if there.locked_until is Some && comes_before(now, there.locked_until->0) {
        law_wait_is_never_negative(there.locked_until->0, now);
    }
}

/// Whether a decision locks the row of `record` anew where the lock is taken, and changes nothing
/// else.
pub open spec fn changes_only_the_lock(decision: LockDecision, record: IdempotencyRecord) -> bool {
    match decision.update {
        None => !(decision.result is Acquired),
        Some(StoreUpdate::Relock { key, user_id, status, locked_until, created_at }) => {
            &&& decision.result is Acquired
            &&& key@ == record.key@
            &&& user_id@ == record.user_id@
            &&& status@ == "pending"@
            &&& column_holds(created_at@, record.created_at)
            &&& match record.locked_until {
                Some(until) => locked_until matches Some(text) && column_holds(text@, until),
                None => locked_until is None,
            }
        },
        _ => false,
    }
}

/// Whether the decision on a request for the lock of `record` at `now` is the right one, `row`
/// having been read as `read`.
pub open spec fn decides(
    read: Result<IdempotencyRecord, IdempotencyError>,
    record: IdempotencyRecord,
    now: Timestamp,
    res: Result<LockDecision, IdempotencyError>,
) -> bool {
    match read {
        Ok(there) => res matches Ok(decision) && answers(
            there,
            record.request_fingerprint@,
            now,
            decision.result,
        ) && changes_only_the_lock(decision, record),
        Err(e) => res matches Err(told) && same_error(told, e),
    }
}

/// The row that is there decides on the lock, and changes only where the lock is taken.
pub proof fn law_lock_is_decided_by_the_row(
    row: StoredRow,
    read: Result<IdempotencyRecord, IdempotencyError>,
    record: IdempotencyRecord,
    now: Timestamp,
    res: Result<LockDecision, IdempotencyError>,
)
    requires
        record@.valid(),
        now.valid(),
        call_ensures(record_from_row, (row,), read),
        call_ensures(try_acquire_lock_at, (Some(row), &record, &now), res),
    ensures
        decides(read, record, now, res),
{
    if let Ok(there) = read {
        if there.locked_until is Some && comes_before(now, there.locked_until->0) {
            law_wait_is_never_negative(there.locked_until->0, now);
        }
    }
}

/// By the clock, it is the very instant that the clock showed which decides on the lock.
pub proof fn law_lock_is_decided_by_the_clock(
    row: StoredRow,
    read: Result<IdempotencyRecord, IdempotencyError>,
    record: IdempotencyRecord,
    res: Result<LockDecision, IdempotencyError>,
)
    requires
        record@.valid(),
        call_ensures(record_from_row, (row,), read),
        call_ensures(try_acquire_lock, (Some(row), &record), res),
    ensures
        exists|now: Timestamp| #[trigger] clock_shows(now) && decides(read, record, now, res),
{
    let now = choose|now: Timestamp| #[trigger]
        is_clock_reading(now) && clock_shows(now) && lock_decided(
            row_view(Some(row)),
            record@,
            now,
            decision_result_view(res),
        );
    if let Ok(there) = read {
        if there.locked_until is Some && comes_before(now, there.locked_until->0) {
            law_wait_is_never_negative(there.locked_until->0, now);
        }
    }
    assert(clock_shows(now) && decides(read, record, now, res));
}

/// Whether a decision takes the lock and puts the record in as a pending one.
pub open spec fn puts_in(
    res: Result<LockDecision, IdempotencyError>,
    record: IdempotencyRecord,
) -> bool {
    &&& res matches Ok(decision)
    &&& decision.result is Acquired
    &&& decision.update matches Some(StoreUpdate::Insert(row))
    &&& row_holds(row, record, IdempotencyStatus::Pending)
}

/// Where there is no row the lock is taken and the record goes in, pending, whatever its status
/// and whatever the time.
pub proof fn law_first_request_is_put_in(
    record: IdempotencyRecord,
    now: Timestamp,
    at: Result<LockDecision, IdempotencyError>,
    by_the_clock: Result<LockDecision, IdempotencyError>,
)
    requires
        record@.valid(),
        now.valid(),
        call_ensures(try_acquire_lock_at, (None, &record, &now), at),
        call_ensures(try_acquire_lock, (None, &record), by_the_clock),
    ensures
        puts_in(at, record),
        puts_in(by_the_clock, record),
{
}

/// Whether `update` ends the request of `key` and `user_id`.
pub open spec fn ends_request(
    update: StoreUpdate,
    key: Seq<char>,
    user_id: Seq<char>,
    status: IdempotencyStatus,
    response: Option<CachedResponse>,
) -> bool {
    &&& update matches StoreUpdate::Finish {
        key: k,
        user_id: u,
        status: s,
        response_status_code,
        response_headers,
        response_body,
    }
    &&& k@ == key
    &&& u@ == user_id
    &&& stands_for(s@, status)
    &&& columns_hold(response_status_code, response_headers, response_body, response)
}

/// A completion writes the status and the response that it is given under its key and user, and a
/// release does the same with a failure.
pub proof fn law_ends_are_written_as_given(
    key: &str,
    user_id: &str,
    status: IdempotencyStatus,
    is_retryable: bool,
    response: Option<CachedResponse>,
    completed: StoreUpdate,
    released: StoreUpdate,
)
    requires
        call_ensures(complete_with_response, (key, user_id, status, &response), completed),
        call_ensures(release_lock_on_failure, (key, user_id, is_retryable, &response), released),
    ensures
        ends_request(completed, key@, user_id@, status, response),
        ends_request(
            released,
            key@,
            user_id@,
            IdempotencyStatus::Failed { is_retryable },
            response,
        ),
{
}

/// A clean-up compares with the text of its instant; by the clock, of the very instant that the
/// clock showed. What it takes out is what comes strictly before.
pub proof fn law_cleanup_compares_with_its_instant(
    now: Timestamp,
    at: StoreUpdate,
    by_the_clock: StoreUpdate,
    sql: &'static str,
)
    requires
        now.valid(),
        call_ensures(cleanup_expired_at, (&now,), at),
        call_ensures(cleanup_expired, (), by_the_clock),
        call_ensures(StoreUpdate::sql, (&at,), sql),
    ensures
        at matches StoreUpdate::DeleteExpired { now: text } && column_holds(text@, now),
        exists|shown: Timestamp| #[trigger]
            clock_shows(shown) && (by_the_clock matches StoreUpdate::DeleteExpired { now: text }
                && column_holds(text@, shown)),
        sql@ == "DELETE FROM idempotency_records WHERE expires_at < ?"@,
{
    let shown = choose|shown: Timestamp| #[trigger]
        is_clock_reading(shown) && clock_shows(shown) && cleans_up(
            by_the_clock@,
            shown,
        );
    assert(clock_shows(shown));
}

/// Whether a value is this text.
pub open spec fn is_text(value: SqlValue, text: Seq<char>) -> bool {
    value matches SqlValue::Text(t) && t@ == text
}

/// Whether a value is this text, or null where there is none.
pub open spec fn is_text_or_null(value: SqlValue, text: Option<String>) -> bool {
    match text {
        Some(t) => is_text(value, t@),
        None => value is Null,
    }
}

/// Whether a value is this integer, or null where there is none.
pub open spec fn is_integer_or_null(value: SqlValue, n: Option<i32>) -> bool {
    match n {
        Some(i) => value matches SqlValue::Integer(j) && j == i,
        None => value is Null,
    }
}

/// Whether a value is these bytes, or null where there are none.
pub open spec fn is_blob_or_null(value: SqlValue, bytes: Option<Vec<u8>>) -> bool {
    match bytes {
        Some(b) => value matches SqlValue::Blob(c) && c@ == b@,
        None => value is Null,
    }
}

/// Each change has its statement, and every value of the change stands for the placeholder of its
/// column.
pub proof fn law_statements_get_the_values_of_the_change(
    update: StoreUpdate,
    sql: &'static str,
    values: Vec<SqlValue>,
)
    requires
        call_ensures(StoreUpdate::sql, (&update,), sql),
        call_ensures(StoreUpdate::into_params, (update,), values),
    ensures
        match update {
            StoreUpdate::Insert(row) => {
                &&& sql@ == r#"
    INSERT INTO idempotency_records (
        key, user_id, request_path, request_method,
        request_fingerprint, status, response_status_code,
        response_headers, response_body, created_at,
        expires_at, locked_until
    ) VALUES (?, ?, ?, ?, ?, ?, ?, ?, ?, ?, ?, ?)
"#@
                &&& values@.len() == 12
                &&& is_text(values@[0], row.key@)
                &&& is_text(values@[1], row.user_id@)
                &&& is_text(values@[2], row.request_path@)
                &&& is_text(values@[3], row.request_method@)
                &&& is_text(values@[4], row.request_fingerprint@)
                &&& is_text(values@[5], row.status@)
                &&& is_integer_or_null(values@[6], row.response_status_code)
                &&& is_text_or_null(values@[7], row.response_headers)
                &&& is_blob_or_null(values@[8], row.response_body)
                &&& is_text(values@[9], row.created_at@)
                &&& is_text(values@[10], row.expires_at@)
                &&& is_text_or_null(values@[11], row.locked_until)
            },
            StoreUpdate::Relock { key, user_id, status, locked_until, created_at } => {
                &&& sql@ == r#"
    UPDATE idempotency_records
    SET status = ?, locked_until = ?, created_at = ?
    WHERE key = ? AND user_id = ?
"#@
                &&& values@.len() == 5
                &&& is_text(values@[0], status@)
                &&& is_text_or_null(values@[1], locked_until)
                &&& is_text(values@[2], created_at@)
                &&& is_text(values@[3], key@)
                &&& is_text(values@[4], user_id@)
            },
            StoreUpdate::Finish {
                key,
                user_id,
                status,
                response_status_code,
                response_headers,
                response_body,
            } => {
                &&& sql@ == r#"
    UPDATE idempotency_records
    SET status = ?,
        response_status_code = ?,
        response_headers = ?,
        response_body = ?,
        locked_until = NULL
    WHERE key = ? AND user_id = ?
"#@
                &&& values@.len() == 6
                &&& is_text(values@[0], status@)
                &&& is_integer_or_null(values@[1], response_status_code)
                &&& is_text_or_null(values@[2], response_headers)
                &&& is_blob_or_null(values@[3], response_body)
                &&& is_text(values@[4], key@)
                &&& is_text(values@[5], user_id@)
            },
            StoreUpdate::DeleteExpired { now } => {
                &&& sql@ == "DELETE FROM idempotency_records WHERE expires_at < ?"@
                &&& values@.len() == 1
                &&& is_text(values@[0], now@)
            },
        },
{
    let views = values@.map_values(|value: SqlValue| value@);
    assert(views == update@.params());
    assert(views.len() == values@.len());
    assert forall|i: int| 0 <= i < values@.len() implies #[trigger] values@[i]@ == views[i] by {}
    assert(values@.len() > 0 ==> values@[0]@ == update@.params()[0]);
}

/// A lock lasts its full timeout from the instant at which its request began, and not longer. Until
/// then the same request is told to wait for the seconds that are left, rounded down, and nothing
/// changes; from then on it gets the lock.
pub proof fn law_lock_lasts_its_full_timeout<S>(
    middleware: IdempotencyMiddleware<S>,
    key: Option<String>,
    user_id: String,
    request_path: String,
    request_method: String,
    request: Option<String>,
    begun: Timestamp,
    record: IdempotencyRecord,
    asked: Timestamp,
    first: LockDecision,
    row: StoredRow,
    again: IdempotencyRecord,
    now: Timestamp,
    res: Result<LockDecision, IdempotencyError>,
)
    requires
        middleware.valid(),
        begun.valid(),
        !begun.is_leap(),
        call_ensures(
            IdempotencyMiddleware::<S>::begin_at,
            (&middleware, key, user_id, request_path, request_method, request, begun),
            Some(Ok(record)),
        ),
        record@.has_readable_times(),
        asked.valid(),
        call_ensures(try_acquire_lock_at, (None, &record, &asked), Ok(first)),
        first.update == Some(StoreUpdate::Insert(row)),
        again@.valid(),
        again.request_fingerprint@ == record.request_fingerprint@,
        now.valid(),
        !now.is_leap(),
        call_ensures(try_acquire_lock_at, (Some(row), &again, &now), res),
    ensures
        res matches Ok(decision) && {
            let left = (begun.secs - now.secs + middleware.lock_timeout().secs) * 1_000_000_000
                + begun.nanos - now.nanos + middleware.lock_timeout().nanos;
            &&& left > 0 ==> decision.update is None && (
            decision.result matches LockResult::InProgress { retry_after } && retry_after
                * 1_000_000_000 <= left < (retry_after + 1) * 1_000_000_000)
            &&& left <= 0 ==> decision.result is Acquired
        },
{
    law_record_reads_back(row@, record@.pending());
    let until = record.locked_until->0;
    if comes_before(now, until) {
        law_wait_is_never_negative(until, now);
    }
}

/// A key that a user has used for one request is refused for another: where the digests of the two
/// texts differ, whenever it comes, the second is told that the key was used, and nothing changes.
pub proof fn law_key_is_refused_for_another_request<S>(
    middleware: IdempotencyMiddleware<S>,
    key: Option<String>,
    user_id: String,
    a: String,
    path_a: String,
    method_a: String,
    begun_a: Timestamp,
    record_a: IdempotencyRecord,
    asked: Timestamp,
    first: LockDecision,
    row: StoredRow,
    b: String,
    path_b: String,
    method_b: String,
    begun_b: Timestamp,
    record_b: IdempotencyRecord,
    now: Timestamp,
    res: Result<LockDecision, IdempotencyError>,
)
    requires
        middleware.valid(),
        begun_a.valid(),
        !begun_a.is_leap(),
        call_ensures(
            IdempotencyMiddleware::<S>::begin_at,
            (&middleware, key, user_id, path_a, method_a, Some(a), begun_a),
            Some(Ok(record_a)),
        ),
        record_a@.has_readable_times(),
        asked.valid(),
        call_ensures(try_acquire_lock_at, (None, &record_a, &asked), Ok(first)),
        first.update == Some(StoreUpdate::Insert(row)),
        begun_b.valid(),
        !begun_b.is_leap(),
        call_ensures(
            IdempotencyMiddleware::<S>::begin_at,
            (&middleware, key, user_id, path_b, method_b, Some(b), begun_b),
            Some(Ok(record_b)),
        ),
        sha256(encode_utf8(a@)) != sha256(encode_utf8(b@)),
        now.valid(),
        call_ensures(try_acquire_lock_at, (Some(row), &record_b, &now), res),
    ensures
        res matches Ok(decision) && decision.result is KeyReused && decision.update is None,
{
    law_record_reads_back(row@, record_a@.pending());
    if record_a.request_fingerprint@ == record_b.request_fingerprint@ {
        law_hex_is_injective(sha256(encode_utf8(a@)), sha256(encode_utf8(b@)));
    }
}

/// Whether `after` is the row `before` once `update` has ended its request.
pub open spec fn is_ended_by(before: StoredRow, update: StoreUpdate, after: StoredRow) -> bool {
    &&& update matches StoreUpdate::Finish {
        key,
        user_id,
        status,
        response_status_code,
        response_headers,
        response_body,
    }
    &&& after.key@ == before.key@
    &&& after.user_id@ == before.user_id@
    &&& after.request_path@ == before.request_path@
    &&& after.request_method@ == before.request_method@
    &&& after.request_fingerprint@ == before.request_fingerprint@
    &&& after.status@ == status@
    &&& after.response_status_code == response_status_code
    &&& after.response_headers == response_headers
    &&& after.response_body == response_body
    &&& after.created_at@ == before.created_at@
    &&& after.expires_at@ == before.expires_at@
    &&& after.locked_until is None
}

/// After a reply with any status of 500 or more the same request gets the lock and runs its handler
/// again, at once. After any other reply it gets that reply, whatever the time.
pub proof fn law_reply_is_run_again_or_given_again(
    reply: HandlerReply,
    status: IdempotencyStatus,
    response: CachedResponse,
    key: &str,
    user_id: &str,
    update: StoreUpdate,
    before: StoredRow,
    after: StoredRow,
    record: IdempotencyRecord,
    now: Timestamp,
    res: Result<LockDecision, IdempotencyError>,
)
    requires
        reply.body is Ok,
        call_ensures(after_handler, (Ok(reply),), Settlement::Complete { status, response }),
        call_ensures(complete_with_response, (key, user_id, status, &Some(response)), update),
        is_ended_by(before, update, after),
        rfc3339_instant(before.created_at@) is Ok,
        rfc3339_instant(before.expires_at@) is Ok,
        record@.valid(),
        record.request_fingerprint@ == before.request_fingerprint@,
        now.valid(),
        call_ensures(try_acquire_lock_at, (Some(after), &record, &now), res),
    ensures
        res matches Ok(decision) && {
            &&& reply.status_code >= 500 <==> decision.result is Acquired
            &&& 400 <= reply.status_code < 500 <==> decision.result is FailedPermanently
            &&& reply.status_code < 400 <==> decision.result is AlreadyCompleted
            &&& decision.result matches LockResult::FailedPermanently(r) ==> gives(r, reply)
            &&& decision.result matches LockResult::AlreadyCompleted(r) ==> gives(r, reply)
        },
{
    law_status_reads_back(status);
}

/// Whether a response is a handler's reply.
pub open spec fn gives(response: CachedResponse, reply: HandlerReply) -> bool {
    &&& response.status_code == reply.status_code
    &&& text_map(response.headers@) == text_map(reply.headers@)
    &&& response.body@ == reply.body->Ok_0@
}

/// After any error of its handler the same request gets the lock again, at once.
pub proof fn law_failed_request_is_run_again(
    e: IdempotencyError,
    is_retryable: bool,
    error: IdempotencyError,
    key: &str,
    user_id: &str,
    update: StoreUpdate,
    before: StoredRow,
    after: StoredRow,
    record: IdempotencyRecord,
    now: Timestamp,
    res: Result<LockDecision, IdempotencyError>,
)
    requires
        call_ensures(after_handler, (Err(e),), Settlement::Release { is_retryable, error }),
        call_ensures(release_lock_on_failure, (key, user_id, is_retryable, &None), update),
        is_ended_by(before, update, after),
        rfc3339_instant(before.created_at@) is Ok,
        rfc3339_instant(before.expires_at@) is Ok,
        record@.valid(),
        record.request_fingerprint@ == before.request_fingerprint@,
        now.valid(),
        call_ensures(try_acquire_lock_at, (Some(after), &record, &now), res),
    ensures
        res matches Ok(decision) && decision.result is Acquired,
{
    law_status_reads_back(IdempotencyStatus::Failed { is_retryable });
}

} // verus!
