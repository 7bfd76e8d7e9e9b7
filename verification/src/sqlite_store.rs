//! The decisions of the store: what becomes of a lock, a completion, a release
//! and a clean-up, given the row that is there.

use vstd::prelude::*;
use crate::rows::{
    decoded, holds_lock, holds_record, holds_response, lock_column, record_from_row,
    response_columns, row_from_record, serialize_status, status_text, RowView, StoredRow,
};
use crate::statements::{update_view, StoreUpdate, UpdateView};
use crate::time::{
    clock_shows, is_clock_reading, lemma_reading_is_shown, renders, seconds_between, to_rfc3339,
    utc_now, whole_seconds_between, Timestamp,
};
use crate::types::{
    response_view, CachedResponse, ErrorView, IdempotencyError, IdempotencyRecord,
    IdempotencyStatus, LockResult, LockView, RecordView, ResponseView,
};

verus! {

broadcast use lemma_reading_is_shown;

/// The answer to a request for the lock at `now`, where a record is there
/// already. A finished request gives its response again, if it has one; a
/// pending one keeps its lock while that lasts; all else may be tried again.
pub open spec fn lock_result(
    existing: RecordView,
    fingerprint: Seq<char>,
    now: Timestamp,
) -> LockView {
    if existing.request_fingerprint != fingerprint {
        LockView::KeyReused
    } else {
        match (existing.status, existing.response, existing.locked_until) {
            (IdempotencyStatus::Completed, Some(response), _) => LockView::AlreadyCompleted(
                response,
            ),
            (
                IdempotencyStatus::Failed { is_retryable: false },
                Some(response),
                _,
            ) => LockView::FailedPermanently(response),
            (IdempotencyStatus::Pending, _, Some(until)) => if now.before(until) {
                LockView::InProgress { retry_after: seconds_until(until, now) }
            } else {
                LockView::Acquired
            },
            _ => LockView::Acquired,
        }
    }
}

/// The whole seconds from `now` until a later instant.
pub open spec fn seconds_until(until: Timestamp, now: Timestamp) -> u64 {
    whole_seconds_between(until, now) as u64
}

/// Answers a request for the lock at `now`, where a record is there already.
pub fn decide_lock(
    existing: IdempotencyRecord,
    request_fingerprint: &String,
    now: &Timestamp,
) -> (res: LockResult)
    requires
        existing@.valid(),
        now.valid(),
    ensures
        res@ == lock_result(existing@, request_fingerprint@, *now),
{
    if existing.request_fingerprint != *request_fingerprint {
        return LockResult::KeyReused;
    }
    match existing.status {
        IdempotencyStatus::Completed => match existing.response {
            Some(response) => LockResult::AlreadyCompleted(response),
            None => LockResult::Acquired,
        },
        IdempotencyStatus::Failed { is_retryable: false } => match existing.response {
            Some(response) => LockResult::FailedPermanently(response),
            None => LockResult::Acquired,
        },
        IdempotencyStatus::Failed { is_retryable: true } => LockResult::Acquired,
        IdempotencyStatus::Pending => match existing.locked_until {
            Some(until) => {
                if until.is_after(now) {
                    LockResult::InProgress { retry_after: seconds_between(&until, now) as u64 }
                } else {
                    LockResult::Acquired
                }
            },
            None => LockResult::Acquired,
        },
    }
}

/// The answer to a request for the lock, and the change that goes with it.
#[derive(Debug)]
pub struct LockDecision {
    pub result: LockResult,
    pub update: Option<StoreUpdate>,
}

/// A `LockDecision` over views.
pub struct DecisionView {
    pub result: LockView,
    pub update: Option<UpdateView>,
}

impl View for LockDecision {
    type V = DecisionView;

    open spec fn view(&self) -> DecisionView {
        DecisionView { result: self.result@, update: update_view(self.update) }
    }
}

/// The view of a decision, or of the error.
pub open spec fn decision_result_view(res: Result<LockDecision, IdempotencyError>) -> Result<
    DecisionView,
    ErrorView,
> {
    match res {
        Ok(decision) => Ok(decision@),
        Err(e) => Err(e@),
    }
}

/// Whether `update` locks the row of `record` anew: it is pending again, from the
/// record's `created_at` to its `locked_until`.
pub open spec fn relocks(update: UpdateView, record: RecordView) -> bool {
    &&& update matches UpdateView::Relock { key, user_id, status, locked_until, created_at }
    &&& key == record.key
    &&& user_id == record.user_id
    &&& status == status_text(IdempotencyStatus::Pending)
    &&& holds_lock(locked_until, record.locked_until)
    &&& renders(created_at, record.created_at)
}

/// Whether `outcome` is what a request for the lock of `record` comes to at
/// `now`, `existing` being the row of its key and user. Where there is no row,
/// the lock is taken and the record goes in as a pending one, whatever status it
/// carries. Where there is one that cannot be read, that is the error. Else the record in the row decides, and only where
/// the lock is taken does the row change.
pub open spec fn lock_decided(
    existing: Option<RowView>,
    record: RecordView,
    now: Timestamp,
    outcome: Result<DecisionView, ErrorView>,
) -> bool {
    match existing {
        None => {
            &&& outcome matches Ok(decision)
            &&& decision.result is Acquired
            &&& decision.update matches Some(UpdateView::Insert(row))
            &&& holds_record(row, record.pending())
        },
        Some(row) => match decoded(row) {
            Err(e) => outcome == Err::<DecisionView, ErrorView>(e),
            Ok(there) => {
                &&& outcome matches Ok(decision)
                &&& decision.result == lock_result(there, record.request_fingerprint, now)
                &&& if decision.result is Acquired {
                    decision.update matches Some(update) && relocks(update, record)
                } else {
                    decision.update is None
                }
            },
        },
    }
}

/// Decides on a request for the lock of `record` at `now`, `existing` being the
/// row of its key and user.
pub fn try_acquire_lock_at(
    existing: Option<StoredRow>,
    record: &IdempotencyRecord,
    now: &Timestamp,
) -> (res: Result<LockDecision, IdempotencyError>)
    requires
        record@.valid(),
        now.valid(),
    ensures
        lock_decided(row_view(existing), record@, *now, decision_result_view(res)),
{
    match existing {
        Some(row) => {
            let there = record_from_row(row)?;
            let result = decide_lock(there, &record.request_fingerprint, now);
            let update = match result {
                LockResult::Acquired => Some(
                    StoreUpdate::Relock {
                        key: record.key.clone(),
                        user_id: record.user_id.clone(),
                        status: serialize_status(&IdempotencyStatus::Pending),
                        locked_until: lock_column(&record.locked_until),
                        created_at: to_rfc3339(&record.created_at),
                    },
                ),
                _ => None,
            };
            Ok(LockDecision { result, update })
        },
        None => {
            let mut row = row_from_record(record);
            row.status = serialize_status(&IdempotencyStatus::Pending);
            Ok(
                LockDecision {
                    result: LockResult::Acquired,
                    update: Some(StoreUpdate::Insert(row)),
                },
            )
        },
    }
}

/// Decides on a request for the lock of `record` now.
pub fn try_acquire_lock(existing: Option<StoredRow>, record: &IdempotencyRecord) -> (res: Result<
    LockDecision,
    IdempotencyError,
>)
    requires
        record@.valid(),
    ensures
        exists|now: Timestamp| #[trigger]
            is_clock_reading(now) && clock_shows(now) && lock_decided(
                row_view(existing),
                record@,
                now,
                decision_result_view(res),
            ),
{
    let now = utc_now();
    try_acquire_lock_at(existing, record, &now)
}

/// The view of an optional row.
pub open spec fn row_view(row: Option<StoredRow>) -> Option<RowView> {
    match row {
        Some(r) => Some(r@),
        None => None,
    }
}

/// How a transaction ends.
#[derive(Clone, Copy, Debug, PartialEq, Eq, Structural)]
pub enum TransactionEnd {
    Commit,
    Rollback,
}

impl LockDecision {
    /// The transaction of a lock is kept only where the lock was taken.
    pub fn transaction_end(&self) -> (res: TransactionEnd)
        ensures
            res is Commit <==> self.result is Acquired,
    {
        match &self.result {
            LockResult::Acquired => TransactionEnd::Commit,
            _ => TransactionEnd::Rollback,
        }
    }
}

/// Whether `update` gives the row of `key` and `user_id` its outcome.
pub open spec fn finishes(
    update: UpdateView,
    key: Seq<char>,
    user_id: Seq<char>,
    status: IdempotencyStatus,
    response: Option<ResponseView>,
) -> bool {
    &&& update matches UpdateView::Finish {
        key: k,
        user_id: u,
        status: s,
        response_status_code,
        response_headers,
        response_body,
    }
    &&& k == key
    &&& u == user_id
    &&& s == status_text(status)
    &&& holds_response(response_status_code, response_headers, response_body, response)
}

/// The change that stores the final result of a request and gives its lock back.
pub fn complete_with_response(
    key: &str,
    user_id: &str,
    status: IdempotencyStatus,
    response: &Option<CachedResponse>,
) -> (res: StoreUpdate)
    ensures
        finishes(res@, key@, user_id@, status, response_view(*response)),
{
    let (response_status_code, response_headers, response_body) = response_columns(response);
    StoreUpdate::Finish {
        key: key.to_string(),
        user_id: user_id.to_string(),
        status: serialize_status(&status),
        response_status_code,
        response_headers,
        response_body,
    }
}

/// The change that gives the lock of a failed request back.
pub fn release_lock_on_failure(
    key: &str,
    user_id: &str,
    is_retryable: bool,
    response: &Option<CachedResponse>,
) -> (res: StoreUpdate)
    ensures
        finishes(
            res@,
            key@,
            user_id@,
            IdempotencyStatus::Failed { is_retryable },
            response_view(*response),
        ),
{
    complete_with_response(key, user_id, IdempotencyStatus::Failed { is_retryable }, response)
}

/// The record in the row of a key and a user, if there is a row.
pub fn get(row: Option<StoredRow>) -> (res: Result<Option<IdempotencyRecord>, IdempotencyError>)
    ensures
        match row {
            None => res matches Ok(None),
            Some(r) => match res {
                Ok(Some(record)) => decoded(r@) == Ok::<RecordView, ErrorView>(record@),
                Ok(None) => false,
                Err(e) => decoded(r@) == Err::<RecordView, ErrorView>(e@),
            },
        },
{
    match row {
        Some(r) => match record_from_row(r) {
            Ok(record) => Ok(Some(record)),
            Err(e) => Err(e),
        },
        None => Ok(None),
    }
}

/// Whether `update` takes out the rows that have expired by `now`.
pub open spec fn cleans_up(update: UpdateView, now: Timestamp) -> bool {
    update matches UpdateView::DeleteExpired { now: text } && renders(text, now)
}

/// The change that takes out the rows that have expired by `now`.
pub fn cleanup_expired_at(now: &Timestamp) -> (res: StoreUpdate)
    requires
        now.valid(),
    ensures
        cleans_up(res@, *now),
{
    StoreUpdate::DeleteExpired { now: to_rfc3339(now) }
}

/// The change that takes out the rows that have expired.
pub fn cleanup_expired() -> (res: StoreUpdate)
    ensures
        exists|now: Timestamp| #[trigger]
            is_clock_reading(now) && clock_shows(now) && cleans_up(res@, now),
{
    let now = utc_now();
    cleanup_expired_at(&now)
}

/// How the transaction round some work ends: it is kept where the work succeeded.
pub fn transaction_end<T>(result: &Result<T, IdempotencyError>) -> (res: TransactionEnd)
    ensures
        res is Commit <==> result is Ok,
{
    match result {
        Ok(_) => TransactionEnd::Commit,
        Err(_) => TransactionEnd::Rollback,
    }
}

/// What comes of work in a transaction: the work's own result, unless the
/// transaction failed to end as it should, of which `transaction` has the message.
pub fn execute_in_transaction<T>(
    result: Result<T, IdempotencyError>,
    transaction: Result<(), String>,
) -> (res: Result<T, IdempotencyError>)
    ensures
        match transaction {
            Ok(()) => res == result,
            Err(message) => res == Err::<T, IdempotencyError>(
                IdempotencyError::TransactionFailed(message),
            ),
        },
{
    match transaction {
        Ok(()) => result,
        Err(message) => Err(IdempotencyError::TransactionFailed(message)),
    }
}

} // verus!
