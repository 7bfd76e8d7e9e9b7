//! What holds of the library as a whole.

use vstd::prelude::*;
use crate::middleware::{
    answer, final_status, fingerprint, next_step, pending_record_view, request_text, settlement,
    sha256, HandlerReply, IdempotencyMiddleware, NextStepView, SettlementView,
};
use crate::rows::{
    decoded, holds_record, read_headers, row_response, status_of, status_text, RowView,
};
use crate::sqlite_store::{lock_result, seconds_until, DecisionView};
use crate::statements::UpdateView;
use crate::table::{
    concerns, readable, row_at, takes, well_keyed, writes_readable, RowId, StoreOp, Table,
};
use crate::text::{hex, hex_char};
use crate::time::{
    is_clock_reading, rfc3339_text, whole_seconds_between, Duration, Timestamp,
    LAST_FOUR_DIGIT_SECOND,
};
use crate::types::{
    text_map, ErrorView, IdempotencyStatus, LockView, RecordView, ResponseView,
};
use vstd::utf8::encode_utf8;

verus! {

/// A status reads back as it was written.
pub proof fn law_status_reads_back(status: IdempotencyStatus)
    ensures
        status_of(status_text(status)) == status,
{
    reveal_strlit("pending");
    reveal_strlit("completed");
    reveal_strlit("failed:retryable");
    reveal_strlit("failed:permanent");
    assert("pending"@[0] == 'p');
    assert("completed"@[0] == 'c');
    assert("failed:retryable"@[7] == 'r');
    assert("failed:permanent"@[7] == 'p');
    assert("failed:permanent"@[0] == 'f');
    assert("failed:retryable"@[0] == 'f');
}

/// A record reads back from its row as it was written, as long as its years have four
/// digits.
pub proof fn law_record_reads_back(row: RowView, record: RecordView)
    requires
        record.has_readable_times(),
        holds_record(row, record),
    ensures
        decoded(row) == Ok::<RecordView, ErrorView>(record),
{
    law_status_reads_back(record.status);
    match record.response {
        Some(r) => {
            assert(row_response(row, read_headers(row.response_headers))->0 =~= r);
        },
        None => {},
    }
}

/// Every operation keeps each row under its own key and user.
pub proof fn law_rows_stay_under_their_ids(op: StoreOp, before: Table, after: Table)
    requires
        takes(op, before, after),
        well_keyed(before),
    ensures
        well_keyed(after),
{
}

/// Every operation keeps the table readable, as long as the years it writes have four digits.
pub proof fn law_table_stays_readable(op: StoreOp, before: Table, after: Table)
    requires
        takes(op, before, after),
        writes_readable(op),
        readable(before),
    ensures
        readable(after),
{
    assert forall|id: RowId| #[trigger] after.contains_key(id) implies decoded(after[id]) is Ok by {
        match op {
            StoreOp::Lock { record, now, outcome } => {
                if id == (record.key, record.user_id) {
                    if !before.contains_key(id) {
                        law_record_reads_back(after[id], record.pending());
                    }
                }
            },
            _ => {},
        }
        if before.contains_key(id) {
            assert(decoded(before[id]) is Ok);
        }
    }
}

/// No operation touches the row of another key or another user, but for a
/// clean-up, which may take it out.
pub proof fn law_other_rows_are_untouched(op: StoreOp, before: Table, after: Table, id: RowId)
    requires
        takes(op, before, after),
        !concerns(op, id),
    ensures
        op is CleanUp || row_at(after, id) == row_at(before, id),
        row_at(after, id) is None || row_at(after, id) == row_at(before, id),
{
}

/// A row that stays keeps what its request was and when it expires: a new lock
/// does not put off the end of a record.
pub proof fn law_request_and_expiry_are_fixed(op: StoreOp, before: Table, after: Table, id: RowId)
    requires
        takes(op, before, after),
        before.contains_key(id),
        after.contains_key(id),
    ensures
        after[id].request_path == before[id].request_path,
        after[id].request_method == before[id].request_method,
        after[id].request_fingerprint == before[id].request_fingerprint,
        after[id].expires_at == before[id].expires_at,
{
}

/// The first request under a key and a user takes the lock, whatever is stored
/// under other keys or for other users: its handler runs, and its record is kept as
/// a pending one.
pub proof fn law_first_request_takes_the_lock(
    record: RecordView,
    now: Timestamp,
    outcome: Result<DecisionView, ErrorView>,
    before: Table,
    after: Table,
)
    requires
        takes(StoreOp::Lock { record, now, outcome }, before, after),
        !before.contains_key((record.key, record.user_id)),
    ensures
        outcome matches Ok(decision) && next_step(decision.result) is RunHandler,
        after.contains_key((record.key, record.user_id)),
        holds_record(after[(record.key, record.user_id)], record.pending()),
        record.has_readable_times() ==> decoded(after[(record.key, record.user_id)]) == Ok::<
            RecordView,
            ErrorView,
        >(record.pending()),
{
    if record.has_readable_times() {
        law_record_reads_back(after[(record.key, record.user_id)], record.pending());
    }
}

/// A key that was used for another request is refused, and nothing changes.
pub proof fn law_reused_key_is_refused(
    record: RecordView,
    now: Timestamp,
    outcome: Result<DecisionView, ErrorView>,
    before: Table,
    after: Table,
    there: RecordView,
)
    requires
        takes(StoreOp::Lock { record, now, outcome }, before, after),
        before.contains_key((record.key, record.user_id)),
        decoded(before[(record.key, record.user_id)]) == Ok::<RecordView, ErrorView>(there),
        there.request_fingerprint != record.request_fingerprint,
    ensures
        outcome matches Ok(decision) && next_step(decision.result) == NextStepView::Refuse(
            ErrorView::KeyReusedWithDifferentRequest,
        ),
        after == before,
{
}

/// A pending request whose lock has run out, or that has none, may be taken over
/// by the same request.
pub proof fn law_lock_runs_out(
    record: RecordView,
    now: Timestamp,
    outcome: Result<DecisionView, ErrorView>,
    before: Table,
    after: Table,
    there: RecordView,
)
    requires
        takes(StoreOp::Lock { record, now, outcome }, before, after),
        before.contains_key((record.key, record.user_id)),
        decoded(before[(record.key, record.user_id)]) == Ok::<RecordView, ErrorView>(there),
        there.request_fingerprint == record.request_fingerprint,
        there.status is Pending,
        there.locked_until matches Some(until) ==> !now.before(until),
    ensures
        outcome matches Ok(decision) && next_step(decision.result) is RunHandler,
{
}

/// One who is told to wait and waits a second longer than `retry_after` says gets
/// the lock, if the record is as it was, and one who waits less than it says does not.
pub proof fn law_retry_after_tells_when(
    existing: RecordView,
    fingerprint: Seq<char>,
    now: Timestamp,
    retry_after: u64,
    later: Timestamp,
)
    requires
        existing.valid(),
        now.valid(),
        lock_result(existing, fingerprint, now) == (LockView::InProgress { retry_after }),
        !existing.locked_until->0.is_leap(),
        !now.is_leap(),
        !later.is_leap(),
    ensures
        later.total_nanos() >= now.total_nanos() + (retry_after + 1) * 1_000_000_000
            ==> lock_result(existing, fingerprint, later) is Acquired,
        later.total_nanos() < now.total_nanos() + retry_after * 1_000_000_000 ==> lock_result(
            existing,
            fingerprint,
            later,
        ) is InProgress,
{
}

/// The wait that is told is never negative, leap seconds or not.
pub proof fn law_wait_is_never_negative(until: Timestamp, now: Timestamp)
    requires
        until.valid(),
        now.valid(),
        now.before(until),
    ensures
        0 <= whole_seconds_between(until, now),
        seconds_until(until, now) == whole_seconds_between(until, now),
{
}

/// Whether each operation leads from its table to the next.
pub open spec fn is_trace(ops: Seq<StoreOp>, tables: Seq<Table>) -> bool {
    &&& tables.len() == ops.len() + 1
    &&& forall|i: int| 0 <= i < ops.len() ==> takes(#[trigger] ops[i], tables[i], tables[i + 1])
}

/// Whether `op` asks for the lock of `id` at an instant before `until`.
pub open spec fn asks_before(op: StoreOp, id: RowId, until: Timestamp) -> bool {
    &&& op matches StoreOp::Lock { record, now, .. }
    &&& id == (record.key, record.user_id)
    &&& now.before(until)
}

/// Whether `op`, which led to `after`, is no clean-up that took the row of `id` out.
pub open spec fn spares(op: StoreOp, id: RowId, after: Table) -> bool {
    op is CleanUp ==> after.contains_key(id)
}

/// Whether a row is to be kept until `expires_at`.
pub open spec fn expires(row: Option<RowView>, expires_at: Timestamp) -> bool {
    row matches Some(r) && r.expires_at == rfc3339_text(expires_at.secs, expires_at.nanos)
}

/// Whether `op`, if it is a clean-up, comes no later than `expires_at`, its year having
/// four digits.
pub open spec fn comes_in_time(op: StoreOp, expires_at: Timestamp) -> bool {
    op matches StoreOp::CleanUp { now, .. } ==> now.has_four_digit_year() && !expires_at.before(now)
}

/// A record is kept until it expires, whatever is done to the table meanwhile.
pub proof fn law_record_is_kept_until_it_expires(
    ops: Seq<StoreOp>,
    tables: Seq<Table>,
    id: RowId,
    expires_at: Timestamp,
    n: int,
)
    requires
        is_trace(ops, tables),
        expires(row_at(tables[0], id), expires_at),
        expires_at.valid(),
        expires_at.has_four_digit_year(),
        forall|i: int| 0 <= i < ops.len() ==> comes_in_time(#[trigger] ops[i], expires_at),
        0 <= n <= ops.len(),
    ensures
        expires(row_at(tables[n], id), expires_at),
    decreases n,
{
    if n > 0 {
        law_record_is_kept_until_it_expires(ops, tables, id, expires_at, n - 1);
        let op = ops[n - 1];
        assert(takes(op, tables[n - 1], tables[n - 1 + 1]));
        match op {
            StoreOp::CleanUp { now, update } => {
                law_cleanup_takes_the_expired(
                    now,
                    update,
                    tables[n - 1],
                    tables[n],
                    id,
                    expires_at,
                );
            },
            _ => {
                if !concerns(op, id) {
                    law_other_rows_are_untouched(op, tables[n - 1], tables[n], id);
                }
            },
        }
    }
}

/// The step that follows a request for a lock.
pub open spec fn step_of(op: StoreOp) -> Option<NextStepView> {
    match op {
        StoreOp::Lock { outcome: Ok(decision), .. } => Some(next_step(decision.result)),
        _ => None,
    }
}

/// Whether a row holds a pending request with this fingerprint, locked until `until`.
pub open spec fn is_locked(row: Option<RowView>, fingerprint: Seq<char>, until: Timestamp) -> bool {
    &&& row matches Some(r)
    &&& decoded(r) matches Ok(there)
    &&& there.status is Pending
    &&& there.request_fingerprint == fingerprint
    &&& there.locked_until == Some(until)
}

/// The answer to a request for a lock that the request with this fingerprint holds until
/// `until`: the same request is told how long to wait, and another is refused.
pub open spec fn refusal_while_locked(
    op: StoreOp,
    fingerprint: Seq<char>,
    until: Timestamp,
) -> NextStepView {
    if op->record.request_fingerprint == fingerprint {
        NextStepView::Refuse(
            ErrorView::RequestInProgress { retry_after: seconds_until(until, op->Lock_now) },
        )
    } else {
        NextStepView::Refuse(ErrorView::KeyReusedWithDifferentRequest)
    }
}

/// A request that took the lock holds it until the instant it was given.
pub proof fn law_taken_lock_is_held(
    record: RecordView,
    now: Timestamp,
    outcome: Result<DecisionView, ErrorView>,
    before: Table,
    after: Table,
    until: Timestamp,
)
    requires
        takes(StoreOp::Lock { record, now, outcome }, before, after),
        outcome matches Ok(decision) && decision.result is Acquired,
        record.locked_until == Some(until),
        record.has_readable_times(),
    ensures
        is_locked(
            row_at(after, (record.key, record.user_id)),
            record.request_fingerprint,
            until,
        ),
{
    let id = (record.key, record.user_id);
    law_status_reads_back(IdempotencyStatus::Pending);
    if !before.contains_key(id) {
        law_record_reads_back(after[id], record.pending());
    }
}

/// While a lock lasts nobody else gets it, however the requests of others come
/// in between: one for the same request is told to wait, one for another
/// request is refused, and the row stays as it is.
pub proof fn law_lock_is_exclusive(
    ops: Seq<StoreOp>,
    tables: Seq<Table>,
    id: RowId,
    fingerprint: Seq<char>,
    until: Timestamp,
    n: int,
)
    requires
        is_trace(ops, tables),
        is_locked(row_at(tables[0], id), fingerprint, until),
        forall|i: int|
            0 <= i < ops.len() ==> (concerns(#[trigger] ops[i], id) ==> asks_before(
                ops[i],
                id,
                until,
            )) && spares(ops[i], id, tables[i + 1]),
        0 <= n <= ops.len(),
    ensures
        row_at(tables[n], id) == row_at(tables[0], id),
        forall|i: int|
            0 <= i < n && concerns(#[trigger] ops[i], id) ==> step_of(ops[i]) == Some(
                refusal_while_locked(ops[i], fingerprint, until),
            ),
    decreases n,
{
    if n > 0 {
        law_lock_is_exclusive(ops, tables, id, fingerprint, until, n - 1);
        let op = ops[n - 1];
        assert(takes(op, tables[n - 1], tables[n - 1 + 1]));
        if !concerns(op, id) {
            law_other_rows_are_untouched(op, tables[n - 1], tables[n], id);
        }
    }
}

/// Whether a row holds a request with this fingerprint that is settled for good with
/// this response.
pub open spec fn is_settled(
    row: Option<RowView>,
    fingerprint: Seq<char>,
    response: ResponseView,
) -> bool {
    &&& row matches Some(r)
    &&& decoded(r) matches Ok(there)
    &&& there.status is Completed || there.status == (IdempotencyStatus::Failed {
        is_retryable: false,
    })
    &&& there.request_fingerprint == fingerprint
    &&& there.response == Some(response)
}

/// A completion with a response settles the request, and so does a failure for good.
pub proof fn law_completion_settles(
    key: Seq<char>,
    user_id: Seq<char>,
    status: IdempotencyStatus,
    response: ResponseView,
    update: UpdateView,
    before: Table,
    after: Table,
    there: RecordView,
)
    requires
        takes(
            StoreOp::Finish { key, user_id, status, response: Some(response), update },
            before,
            after,
        ),
        status is Completed || status == (IdempotencyStatus::Failed { is_retryable: false }),
        before.contains_key((key, user_id)),
        decoded(before[(key, user_id)]) == Ok::<RecordView, ErrorView>(there),
    ensures
        is_settled(row_at(after, (key, user_id)), there.request_fingerprint, response),
{
    law_status_reads_back(status);
    let row = after[(key, user_id)];
    assert(row_response(row, read_headers(row.response_headers))->0 =~= response);
}

/// A settled request is answered with the same response at every later time,
/// without its handler being run, as long as its record is kept; the same key
/// with another request is refused.
pub proof fn law_settled_answer_is_replayed(
    ops: Seq<StoreOp>,
    tables: Seq<Table>,
    id: RowId,
    fingerprint: Seq<char>,
    response: ResponseView,
    n: int,
)
    requires
        is_trace(ops, tables),
        is_settled(row_at(tables[0], id), fingerprint, response),
        forall|i: int|
            0 <= i < ops.len() ==> (concerns(#[trigger] ops[i], id) ==> ops[i] is Lock) && spares(
                ops[i],
                id,
                tables[i + 1],
            ),
        0 <= n <= ops.len(),
    ensures
        row_at(tables[n], id) == row_at(tables[0], id),
        forall|i: int|
            0 <= i < n && concerns(#[trigger] ops[i], id) ==> step_of(ops[i]) == Some(
                if ops[i]->record.request_fingerprint == fingerprint {
                    NextStepView::Respond(response)
                } else {
                    NextStepView::Refuse(ErrorView::KeyReusedWithDifferentRequest)
                },
            ),
    decreases n,
{
    if n > 0 {
        law_settled_answer_is_replayed(ops, tables, id, fingerprint, response, n - 1);
        let op = ops[n - 1];
        assert(takes(op, tables[n - 1], tables[n - 1 + 1]));
        if !concerns(op, id) {
            law_other_rows_are_untouched(op, tables[n - 1], tables[n], id);
        }
    }
}

proof fn lemma_row_is_spared(
    ops: Seq<StoreOp>,
    tables: Seq<Table>,
    id: RowId,
    expires_at: Timestamp,
)
    requires
        is_trace(ops, tables),
        ops.len() > 0,
        expires(row_at(tables[1], id), expires_at),
        expires_at.valid(),
        expires_at.has_four_digit_year(),
        forall|i: int| 0 <= i < ops.len() ==> comes_in_time(#[trigger] ops[i], expires_at),
    ensures
        forall|i: int| 0 <= i < ops.len() ==> spares(#[trigger] ops[i], id, tables[i + 1]),
{
    let kept_ops = ops.skip(1);
    let kept_tables = tables.skip(1);
    assert forall|i: int| 0 <= i < kept_ops.len() implies takes(
        #[trigger] kept_ops[i],
        kept_tables[i],
        kept_tables[i + 1],
    ) && comes_in_time(kept_ops[i], expires_at) by {
        assert(kept_ops[i] == ops[i + 1]);
    }
    assert forall|i: int| 0 <= i < ops.len() implies spares(#[trigger] ops[i], id, tables[i + 1]) by {
        law_record_is_kept_until_it_expires(kept_ops, kept_tables, id, expires_at, i);
        assert(kept_tables[i] == tables[i + 1]);
    }
}

/// While the holder's handler runs: from the operation that took the lock on, all others
/// are refused.
proof fn lemma_others_are_refused(
    ops: Seq<StoreOp>,
    tables: Seq<Table>,
    holder: RecordView,
    until: Timestamp,
    expires_at: Timestamp,
)
    requires
        is_trace(ops, tables),
        ops.len() > 0,
        ops[0] matches StoreOp::Lock { record, .. } && record == holder,
        step_of(ops[0]) == Some(NextStepView::RunHandler),
        holder.locked_until == Some(until),
        holder.has_readable_times(),
        forall|i: int|
            0 < i < ops.len() && concerns(#[trigger] ops[i], (holder.key, holder.user_id))
                ==> asks_before(ops[i], (holder.key, holder.user_id), until),
        expires(row_at(tables[1], (holder.key, holder.user_id)), expires_at),
        expires_at.valid(),
        expires_at.has_four_digit_year(),
        forall|i: int| 0 <= i < ops.len() ==> comes_in_time(#[trigger] ops[i], expires_at),
    ensures
        is_locked(
            row_at(tables[ops.len() as int], (holder.key, holder.user_id)),
            holder.request_fingerprint,
            until,
        ),
        forall|i: int|
            0 < i < ops.len() && concerns(#[trigger] ops[i], (holder.key, holder.user_id))
                ==> step_of(ops[i]) == Some(
                refusal_while_locked(ops[i], holder.request_fingerprint, until),
            ),
{
    let id = (holder.key, holder.user_id);
    assert(takes(ops[0], tables[0], tables[1]));
    law_taken_lock_is_held(
        holder,
        ops[0]->Lock_now,
        ops[0]->outcome,
        tables[0],
        tables[1],
        until,
    );
    lemma_row_is_spared(ops, tables, id, expires_at);
    let held_ops = ops.skip(1);
    let held_tables = tables.skip(1);
    assert forall|i: int| 0 <= i < held_ops.len() implies takes(
        #[trigger] held_ops[i],
        held_tables[i],
        held_tables[i + 1],
    ) && (concerns(held_ops[i], id) ==> asks_before(held_ops[i], id, until)) && spares(
        held_ops[i],
        id,
        held_tables[i + 1],
    ) by {
        assert(held_ops[i] == ops[i + 1]);
    }
    law_lock_is_exclusive(
        held_ops,
        held_tables,
        id,
        holder.request_fingerprint,
        until,
        held_ops.len() as int,
    );
    assert(held_tables[held_ops.len() as int] == tables[ops.len() as int]);
    assert forall|i: int| 0 < i < ops.len() && concerns(#[trigger] ops[i], id) implies step_of(
        ops[i],
    ) == Some(refusal_while_locked(ops[i], holder.request_fingerprint, until)) by {
        assert(held_ops[i - 1] == ops[i]);
    }
}

/// Whoever holds the lock of a request is the only one to run its handler. Where
/// the holder completes the request under the lock with a status below 500, no
/// other request under its key and user runs its handler before the record
/// expires, in whatever order requests come: before the completion those for the
/// same request are told to wait, after it they get the stored response, and
/// those for another request are refused.
pub proof fn law_only_the_holder_runs_the_handler(
    ops: Seq<StoreOp>,
    tables: Seq<Table>,
    holder: RecordView,
    until: Timestamp,
    expires_at: Timestamp,
    done: int,
    response: ResponseView,
)
    requires
        is_trace(ops, tables),
        0 < done < ops.len(),
        // The holder takes the lock, and the request is completed by `done`.
        ops[0] matches StoreOp::Lock { record, .. } && record == holder,
        step_of(ops[0]) == Some(NextStepView::RunHandler),
        holder.locked_until == Some(until),
        holder.has_readable_times(),
        ops[done] matches StoreOp::Finish { key, user_id, status, response: stored, .. } && key
            == holder.key && user_id == holder.user_id && status == final_status(
            response.status_code,
        ) && stored == Some(response),
        response.status_code < 500,
        // All else under its key and user are requests for the lock: before `done`
        // they come while the lock lasts.
        forall|i: int|
            0 < i < done && concerns(#[trigger] ops[i], (holder.key, holder.user_id))
                ==> asks_before(ops[i], (holder.key, holder.user_id), until),
        forall|i: int|
            done < i < ops.len() && concerns(#[trigger] ops[i], (holder.key, holder.user_id))
                ==> ops[i] is Lock,
        // Clean-ups come no later than the record expires.
        expires(row_at(tables[1], (holder.key, holder.user_id)), expires_at),
        expires_at.valid(),
        expires_at.has_four_digit_year(),
        forall|i: int| 0 <= i < ops.len() ==> comes_in_time(#[trigger] ops[i], expires_at),
    ensures
        forall|i: int|
            0 < i < done && concerns(#[trigger] ops[i], (holder.key, holder.user_id)) ==> step_of(
                ops[i],
            ) == Some(refusal_while_locked(ops[i], holder.request_fingerprint, until)),
        forall|i: int|
            done < i < ops.len() && concerns(#[trigger] ops[i], (holder.key, holder.user_id))
                ==> step_of(ops[i]) == Some(
                if ops[i]->record.request_fingerprint == holder.request_fingerprint {
                    NextStepView::Respond(response)
                } else {
                    NextStepView::Refuse(ErrorView::KeyReusedWithDifferentRequest)
                },
            ),
{
    let id = (holder.key, holder.user_id);
    lemma_row_is_spared(ops, tables, id, expires_at);

    // While the handler runs.
    let held_ops = ops.take(done);
    let held_tables = tables.take(done + 1);
    assert forall|i: int| 0 <= i < held_ops.len() implies takes(
        #[trigger] held_ops[i],
        held_tables[i],
        held_tables[i + 1],
    ) && comes_in_time(held_ops[i], expires_at) by {
        assert(held_ops[i] == ops[i]);
    }
    lemma_others_are_refused(held_ops, held_tables, holder, until, expires_at);
    assert forall|i: int| 0 < i < done && concerns(#[trigger] ops[i], id) implies step_of(
        ops[i],
    ) == Some(refusal_while_locked(ops[i], holder.request_fingerprint, until)) by {
        assert(held_ops[i] == ops[i]);
    }

    // The completion.
    assert(takes(ops[done], tables[done], tables[done + 1]));
    let there = decoded(tables[done][id])->Ok_0;
    law_completion_settles(
        holder.key,
        holder.user_id,
        final_status(response.status_code),
        response,
        ops[done]->Finish_update,
        tables[done],
        tables[done + 1],
        there,
    );

    // Ever after.
    let later_ops = ops.skip(done + 1);
    let later_tables = tables.skip(done + 1);
    assert forall|i: int| 0 <= i < later_ops.len() implies takes(
        #[trigger] later_ops[i],
        later_tables[i],
        later_tables[i + 1],
    ) && (concerns(later_ops[i], id) ==> later_ops[i] is Lock) && spares(
        later_ops[i],
        id,
        later_tables[i + 1],
    ) by {
        assert(later_ops[i] == ops[i + done + 1]);
    }
    law_settled_answer_is_replayed(
        later_ops,
        later_tables,
        id,
        holder.request_fingerprint,
        response,
        later_ops.len() as int,
    );
    assert forall|i: int| done < i < ops.len() && concerns(#[trigger] ops[i], id) implies step_of(
        ops[i],
    ) == Some(
        if ops[i]->record.request_fingerprint == holder.request_fingerprint {
            NextStepView::Respond(response)
        } else {
            NextStepView::Refuse(ErrorView::KeyReusedWithDifferentRequest)
        },
    ) by {
        assert(later_ops[i - done - 1] == ops[i]);
    }
}

/// The handler of a request runs once. Where the first request under a key and a
/// user is completed under its lock with a status below 500, no other request
/// under them runs its handler before the record expires, in whatever order
/// requests come: before the completion those for the same request are told to
/// wait, after it they get the response of the first, and those for another
/// request are refused.
pub proof fn law_handler_runs_once(
    ops: Seq<StoreOp>,
    tables: Seq<Table>,
    first: RecordView,
    until: Timestamp,
    done: int,
    response: ResponseView,
)
    requires
        is_trace(ops, tables),
        0 < done < ops.len(),
        // The first request comes, and is completed by `done`.
        !tables[0].contains_key((first.key, first.user_id)),
        ops[0] matches StoreOp::Lock { record, .. } && record == first,
        first.locked_until == Some(until),
        first.has_readable_times(),
        ops[done] matches StoreOp::Finish { key, user_id, status, response: stored, .. } && key
            == first.key && user_id == first.user_id && status == final_status(
            response.status_code,
        ) && stored == Some(response),
        response.status_code < 500,
        // All else under its key and user are requests for the lock: before `done`
        // they come while the lock lasts.
        forall|i: int|
            0 < i < done && concerns(#[trigger] ops[i], (first.key, first.user_id)) ==> asks_before(
                ops[i],
                (first.key, first.user_id),
                until,
            ),
        forall|i: int|
            done < i < ops.len() && concerns(#[trigger] ops[i], (first.key, first.user_id))
                ==> ops[i] is Lock,
        // Clean-ups come no later than the record expires.
        forall|i: int| 0 <= i < ops.len() ==> comes_in_time(#[trigger] ops[i], first.expires_at),
    ensures
        step_of(ops[0]) == Some(NextStepView::RunHandler),
        forall|i: int|
            0 < i < done && concerns(#[trigger] ops[i], (first.key, first.user_id)) ==> step_of(
                ops[i],
            ) == Some(refusal_while_locked(ops[i], first.request_fingerprint, until)),
        forall|i: int|
            done < i < ops.len() && concerns(#[trigger] ops[i], (first.key, first.user_id))
                ==> step_of(ops[i]) == Some(
                if ops[i]->record.request_fingerprint == first.request_fingerprint {
                    NextStepView::Respond(response)
                } else {
                    NextStepView::Refuse(ErrorView::KeyReusedWithDifferentRequest)
                },
            ),
{
    assert(takes(ops[0], tables[0], tables[1]));
    law_first_request_takes_the_lock(
        first,
        ops[0]->Lock_now,
        ops[0]->outcome,
        tables[0],
        tables[1],
    );
    law_only_the_holder_runs_the_handler(
        ops,
        tables,
        first,
        until,
        first.expires_at,
        done,
        response,
    );
}

/// Whether `op` completes or releases the request of `id`.
pub open spec fn ends(op: StoreOp, id: RowId) -> bool {
    op is Finish && concerns(op, id)
}

/// Whether each completion and release of the request of `id` belongs to an earlier
/// operation that was told to run the handler, and no two to the same one.
pub open spec fn finishes_are_earned(ops: Seq<StoreOp>, id: RowId, earned_by: Seq<int>) -> bool {
    &&& forall|i: int|
        0 <= i < ops.len() && #[trigger] ends(ops[i], id) ==> 0 <= earned_by[i] < i && concerns(
            ops[earned_by[i]],
            id,
        ) && step_of(ops[earned_by[i]]) == Some(NextStepView::RunHandler)
    &&& forall|i: int, j: int|
        0 <= i < j < ops.len() && #[trigger] ends(ops[i], id) && #[trigger] ends(ops[j], id)
            ==> earned_by[i] != earned_by[j]
}

proof fn lemma_others_only_ask(
    ops: Seq<StoreOp>,
    tables: Seq<Table>,
    holder: RecordView,
    until: Timestamp,
    expires_at: Timestamp,
    earned_by: Seq<int>,
    done: int,
    response: ResponseView,
    n: int,
)
    requires
        is_trace(ops, tables),
        0 < done < ops.len(),
        // The holder takes the lock, and the request is completed by `done`.
        ops[0] matches StoreOp::Lock { record, .. } && record == holder,
        step_of(ops[0]) == Some(NextStepView::RunHandler),
        holder.locked_until == Some(until),
        holder.has_readable_times(),
        ops[done] matches StoreOp::Finish { key, user_id, status, response: stored, .. } && key
            == holder.key && user_id == holder.user_id && status == final_status(
            response.status_code,
        ) && stored == Some(response),
        response.status_code < 500,
        // Every completion and release under its key and user was earned, this one by it.
        finishes_are_earned(ops, (holder.key, holder.user_id), earned_by),
        earned_by[done] == 0,
        // Requests for the lock before `done` come while the lock lasts.
        forall|i: int|
            0 < i < done && #[trigger] ops[i] is Lock && concerns(ops[i], (holder.key, holder.user_id))
                ==> asks_before(ops[i], (holder.key, holder.user_id), until),
        // Clean-ups come no later than the record expires.
        expires(row_at(tables[1], (holder.key, holder.user_id)), expires_at),
        expires_at.valid(),
        expires_at.has_four_digit_year(),
        forall|i: int| 0 <= i < ops.len() ==> comes_in_time(#[trigger] ops[i], expires_at),
        0 < n <= ops.len(),
    ensures
        forall|i: int|
            0 < i < n && i != done && concerns(#[trigger] ops[i], (holder.key, holder.user_id))
                ==> ops[i] is Lock && step_of(ops[i]) != Some(NextStepView::RunHandler),
    decreases n,
{
    let id = (holder.key, holder.user_id);
    if n > 1 {
        lemma_others_only_ask(
            ops,
            tables,
            holder,
            until,
            expires_at,
            earned_by,
            done,
            response,
            n - 1,
        );
        let last = n - 1;
        if last != done && concerns(ops[last], id) {
            assert(ends(ops[done], id));
            if ops[last] is Finish {
                assert(ends(ops[last], id));
                assert(earned_by[last] == 0);
            }
            let some_ops = ops.take(n);
            let some_tables = tables.take(n + 1);
            assert forall|i: int| 0 <= i < some_ops.len() implies takes(
                #[trigger] some_ops[i],
                some_tables[i],
                some_tables[i + 1],
            ) && comes_in_time(some_ops[i], expires_at) by {
                assert(some_ops[i] == ops[i]);
            }
            assert forall|i: int| 0 < i < n && i != done && concerns(#[trigger] some_ops[i], id)
                implies some_ops[i] is Lock && (i < done ==> asks_before(some_ops[i], id, until)) by {
                assert(some_ops[i] == ops[i]);
            }
            if last < done {
                lemma_others_are_refused(some_ops, some_tables, holder, until, expires_at);
            } else {
                law_only_the_holder_runs_the_handler(
                    some_ops,
                    some_tables,
                    holder,
                    until,
                    expires_at,
                    done,
                    response,
                );
            }
            assert(some_ops[last] == ops[last]);
        }
    }
}

/// Whoever holds the lock of a request is the only one to run its handler and the
/// only one to end it, as long as completions and releases are made only by those
/// who were told to run the handler, once for each run. Where the holder completes
/// the request under the lock with a status below 500, all else under its key and
/// user until the record expires are requests for the lock: before the
/// completion those for the same request are told to wait, after it they get the
/// stored response, and those for another request are refused.
pub proof fn law_only_the_holder_ends_the_request(
    ops: Seq<StoreOp>,
    tables: Seq<Table>,
    holder: RecordView,
    until: Timestamp,
    expires_at: Timestamp,
    earned_by: Seq<int>,
    done: int,
    response: ResponseView,
)
    requires
        is_trace(ops, tables),
        0 < done < ops.len(),
        // The holder takes the lock, and the request is completed by `done`.
        ops[0] matches StoreOp::Lock { record, .. } && record == holder,
        step_of(ops[0]) == Some(NextStepView::RunHandler),
        holder.locked_until == Some(until),
        holder.has_readable_times(),
        ops[done] matches StoreOp::Finish { key, user_id, status, response: stored, .. } && key
            == holder.key && user_id == holder.user_id && status == final_status(
            response.status_code,
        ) && stored == Some(response),
        response.status_code < 500,
        // Every completion and release under its key and user was earned, this one by it.
        finishes_are_earned(ops, (holder.key, holder.user_id), earned_by),
        earned_by[done] == 0,
        // Requests for the lock before `done` come while the lock lasts.
        forall|i: int|
            0 < i < done && #[trigger] ops[i] is Lock && concerns(ops[i], (holder.key, holder.user_id))
                ==> asks_before(ops[i], (holder.key, holder.user_id), until),
        // Clean-ups come no later than the record expires.
        expires(row_at(tables[1], (holder.key, holder.user_id)), expires_at),
        expires_at.valid(),
        expires_at.has_four_digit_year(),
        forall|i: int| 0 <= i < ops.len() ==> comes_in_time(#[trigger] ops[i], expires_at),
    ensures
        forall|i: int|
            0 < i < ops.len() && i != done && concerns(
                #[trigger] ops[i],
                (holder.key, holder.user_id),
            ) ==> ops[i] is Lock,
        forall|i: int|
            0 < i < done && concerns(#[trigger] ops[i], (holder.key, holder.user_id)) ==> step_of(
                ops[i],
            ) == Some(refusal_while_locked(ops[i], holder.request_fingerprint, until)),
        forall|i: int|
            done < i < ops.len() && concerns(#[trigger] ops[i], (holder.key, holder.user_id))
                ==> step_of(ops[i]) == Some(
                if ops[i]->record.request_fingerprint == holder.request_fingerprint {
                    NextStepView::Respond(response)
                } else {
                    NextStepView::Refuse(ErrorView::KeyReusedWithDifferentRequest)
                },
            ),
{
    lemma_others_only_ask(
        ops,
        tables,
        holder,
        until,
        expires_at,
        earned_by,
        done,
        response,
        ops.len() as int,
    );
    law_only_the_holder_runs_the_handler(
        ops,
        tables,
        holder,
        until,
        expires_at,
        done,
        response,
    );
}

/// The handler of a request runs once, and the request is ended once, as long as
/// completions and releases are made only by those who were told to run the
/// handler, once for each run. Where the first request under a key and a user is
/// completed under its lock with a status below 500, all else under them until
/// the record expires are requests for the lock: before the completion those for
/// the same request are told to wait, after it they get the response of the
/// first, and those for another request are refused.
pub proof fn law_request_is_handled_once(
    ops: Seq<StoreOp>,
    tables: Seq<Table>,
    first: RecordView,
    until: Timestamp,
    earned_by: Seq<int>,
    done: int,
    response: ResponseView,
)
    requires
        is_trace(ops, tables),
        0 < done < ops.len(),
        // The first request comes, and is completed by `done`.
        !tables[0].contains_key((first.key, first.user_id)),
        ops[0] matches StoreOp::Lock { record, .. } && record == first,
        first.locked_until == Some(until),
        first.has_readable_times(),
        ops[done] matches StoreOp::Finish { key, user_id, status, response: stored, .. } && key
            == first.key && user_id == first.user_id && status == final_status(
            response.status_code,
        ) && stored == Some(response),
        response.status_code < 500,
        // Every completion and release under its key and user was earned, this one by it.
        finishes_are_earned(ops, (first.key, first.user_id), earned_by),
        earned_by[done] == 0,
        // Requests for the lock before `done` come while the lock lasts.
        forall|i: int|
            0 < i < done && #[trigger] ops[i] is Lock && concerns(ops[i], (first.key, first.user_id))
                ==> asks_before(ops[i], (first.key, first.user_id), until),
        // Clean-ups come no later than the record expires.
        forall|i: int| 0 <= i < ops.len() ==> comes_in_time(#[trigger] ops[i], first.expires_at),
    ensures
        step_of(ops[0]) == Some(NextStepView::RunHandler),
        forall|i: int|
            0 < i < ops.len() && i != done && concerns(
                #[trigger] ops[i],
                (first.key, first.user_id),
            ) ==> ops[i] is Lock,
        forall|i: int|
            0 < i < done && concerns(#[trigger] ops[i], (first.key, first.user_id)) ==> step_of(
                ops[i],
            ) == Some(refusal_while_locked(ops[i], first.request_fingerprint, until)),
        forall|i: int|
            done < i < ops.len() && concerns(#[trigger] ops[i], (first.key, first.user_id))
                ==> step_of(ops[i]) == Some(
                if ops[i]->record.request_fingerprint == first.request_fingerprint {
                    NextStepView::Respond(response)
                } else {
                    NextStepView::Refuse(ErrorView::KeyReusedWithDifferentRequest)
                },
            ),
{
    assert(takes(ops[0], tables[0], tables[1]));
    law_first_request_takes_the_lock(
        first,
        ops[0]->Lock_now,
        ops[0]->outcome,
        tables[0],
        tables[1],
    );
    law_only_the_holder_ends_the_request(
        ops,
        tables,
        first,
        until,
        first.expires_at,
        earned_by,
        done,
        response,
    );
}

/// What a handler answers is what is stored and what is answered, its status
/// telling whether it is settled.
pub proof fn law_answer_is_what_is_stored(reply: HandlerReply)
    requires
        reply.body is Ok,
    ensures
        settlement(Ok(reply)) matches SettlementView::Complete { status, response } && status
            == final_status(response.status_code) && response.status_code == reply.status_code
            && response.headers == text_map(reply.headers@) && response.body == reply.body->Ok_0@
            && answer(settlement(Ok(reply)), None) == Ok::<
            ResponseView,
            ErrorView,
        >(response),
{
}

/// As it comes, the middleware keeps a record for 24 hours and a lock for 30
/// seconds, and its records can be read again until the last day of the year 9999.
pub proof fn law_default_deadlines<S>(
    middleware: IdempotencyMiddleware<S>,
    key: Seq<char>,
    user_id: Seq<char>,
    request_path: Seq<char>,
    request_method: Seq<char>,
    request: Option<Seq<char>>,
    now: Timestamp,
)
    requires
        middleware.ttl() == (Duration { secs: 86_400, nanos: 0 }),
        middleware.lock_timeout() == (Duration { secs: 30, nanos: 0 }),
        is_clock_reading(now),
        now.secs + 86_400 <= LAST_FOUR_DIGIT_SECOND,
    ensures
        middleware.deadlines_fit(now),
        ({
            let record = pending_record_view(
                key,
                user_id,
                request_path,
                request_method,
                fingerprint(request),
                now,
                middleware.ttl(),
                middleware.lock_timeout(),
            );
            &&& record.expires_at == (Timestamp {
                secs: (now.secs + 86_400) as i64,
                nanos: now.nanos,
            })
            &&& record.locked_until == Some(
                Timestamp { secs: (now.secs + 30) as i64, nanos: now.nanos },
            )
            &&& record.valid()
            &&& record.has_readable_times()
        }),
{
}

/// Once a lock was given back, the same request may be handled again exactly
/// where it is not settled for good: after a server error, and after any failure
/// or completion that left no response.
pub proof fn law_unsettled_request_may_be_retried(
    key: Seq<char>,
    user_id: Seq<char>,
    status: IdempotencyStatus,
    response: Option<ResponseView>,
    update: UpdateView,
    before: Table,
    after: Table,
    there: RecordView,
    record: RecordView,
    now: Timestamp,
    outcome: Result<DecisionView, ErrorView>,
    last: Table,
)
    requires
        takes(StoreOp::Finish { key, user_id, status, response, update }, before, after),
        before.contains_key((key, user_id)),
        decoded(before[(key, user_id)]) == Ok::<RecordView, ErrorView>(there),
        takes(StoreOp::Lock { record, now, outcome }, after, last),
        record.key == key,
        record.user_id == user_id,
        record.request_fingerprint == there.request_fingerprint,
    ensures
        outcome matches Ok(decision) && (next_step(decision.result) is RunHandler <==> (response
            is None || status is Pending || status == (IdempotencyStatus::Failed {
            is_retryable: true,
        }))),
{
    law_status_reads_back(status);
}

/// A clean-up takes out the records that expired before `now`, and leaves every
/// other as it is, as long as the years have four digits.
pub proof fn law_cleanup_takes_the_expired(
    now: Timestamp,
    update: UpdateView,
    before: Table,
    after: Table,
    id: RowId,
    expires_at: Timestamp,
)
    requires
        takes(StoreOp::CleanUp { now, update }, before, after),
        now.has_four_digit_year(),
        before.contains_key(id),
        before[id].expires_at == rfc3339_text(expires_at.secs, expires_at.nanos),
        expires_at.valid(),
        expires_at.has_four_digit_year(),
    ensures
        after.contains_key(id) <==> !expires_at.before(now),
        after.contains_key(id) ==> after[id] == before[id],
        forall|other: RowId| #[trigger] after.contains_key(other) ==> before.contains_key(other),
{
}

proof fn lemma_hex_digits_differ(a: int, b: int)
    requires
        0 <= a < 16,
        0 <= b < 16,
        hex_char(a) == hex_char(b),
    ensures
        a == b,
{
}

/// Different bytes have different texts in hexadecimal.
pub proof fn law_hex_is_injective(a: Seq<u8>, b: Seq<u8>)
    requires
        hex(a) == hex(b),
    ensures
        a == b,
{
    assert(hex(a).len() == 2 * a.len() && hex(b).len() == 2 * b.len());
    assert forall|i: int| 0 <= i < a.len() implies a[i] == b[i] by {
        let (high, low) = (2 * i, 2 * i + 1);
        assert(high % 2 == 0 && high / 2 == i && low % 2 == 1 && low / 2 == i);
        assert(hex(a)[high] == hex_char(a[i] as int / 16));
        assert(hex(b)[high] == hex_char(b[i] as int / 16));
        assert(hex(a)[low] == hex_char(a[i] as int % 16));
        assert(hex(b)[low] == hex_char(b[i] as int % 16));
        lemma_hex_digits_differ(a[i] as int / 16, b[i] as int / 16);
        lemma_hex_digits_differ(a[i] as int % 16, b[i] as int % 16);
    }
    assert(a =~= b);
}

/// Equal requests have equal fingerprints, and requests whose digests differ
/// have different ones.
pub proof fn law_fingerprint_tells_requests_apart(a: Option<Seq<char>>, b: Option<Seq<char>>)
    ensures
        a == b ==> fingerprint(a) == fingerprint(b),
        fingerprint(a) == fingerprint(b) <==> sha256(encode_utf8(request_text(a))) == sha256(
            encode_utf8(request_text(b)),
        ),
{
    if fingerprint(a) == fingerprint(b) {
        law_hex_is_injective(
            sha256(encode_utf8(request_text(a))),
            sha256(encode_utf8(request_text(b))),
        );
    }
}

} // verus!
