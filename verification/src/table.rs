//! The table of records as a map, and what each operation of the store does to it.

use vstd::prelude::*;
use crate::rows::{decoded, RowView};
use crate::sqlite_store::{cleans_up, finishes, lock_decided, DecisionView};
use crate::statements::UpdateView;
use crate::text::text_less;
use crate::time::Timestamp;
use crate::types::{ErrorView, IdempotencyStatus, RecordView, ResponseView};

verus! {

/// What a row is found by: its key and its user.
pub type RowId = (Seq<char>, Seq<char>);

/// The rows of the table.
pub type Table = Map<RowId, RowView>;

/// The row of a key and a user, if there is one.
pub open spec fn row_at(table: Table, id: RowId) -> Option<RowView> {
    if table.contains_key(id) {
        Some(table[id])
    } else {
        None
    }
}

/// The table once a change was made. A row is put in only where there was none of its key
/// and user; a change to a row that is not there changes nothing.
pub open spec fn applied(table: Table, update: UpdateView) -> Table {
    match update {
        UpdateView::Insert(row) => table.insert((row.key, row.user_id), row),
        UpdateView::Relock { key, user_id, status, locked_until, created_at } => {
            let id = (key, user_id);
            if table.contains_key(id) {
                table.insert(id, RowView { status, locked_until, created_at, ..table[id] })
            } else {
                table
            }
        },
        UpdateView::Finish {
            key,
            user_id,
            status,
            response_status_code,
            response_headers,
            response_body,
        } => {
            let id = (key, user_id);
            if table.contains_key(id) {
                table.insert(
                    id,
                    RowView {
                        status,
                        response_status_code,
                        response_headers,
                        response_body,
                        locked_until: None,
                        ..table[id]
                    },
                )
            } else {
                table
            }
        },
        UpdateView::DeleteExpired { now } => Map::new(
            |id: RowId| table.contains_key(id) && !text_less(table[id].expires_at, now),
            |id: RowId| table[id],
        ),
    }
}

/// The table once a decision on a lock was carried out.
pub open spec fn committed(table: Table, outcome: Result<DecisionView, ErrorView>) -> Table {
    match outcome {
        Ok(decision) => match decision.update {
            Some(update) => applied(table, update),
            None => table,
        },
        Err(_) => table,
    }
}

/// One operation of the store, with what was decided in it.
pub enum StoreOp {
    /// A request for the lock of `record`.
    Lock { record: RecordView, now: Timestamp, outcome: Result<DecisionView, ErrorView> },
    /// A completion or a release.
    Finish {
        key: Seq<char>,
        user_id: Seq<char>,
        status: IdempotencyStatus,
        response: Option<ResponseView>,
        update: UpdateView,
    },
    /// A clean-up.
    CleanUp { now: Timestamp, update: UpdateView },
}

/// Whether `op` leads from one table to the next.
pub open spec fn takes(op: StoreOp, before: Table, after: Table) -> bool {
    match op {
        StoreOp::Lock { record, now, outcome } => {
            &&& record.valid()
            &&& now.valid()
            &&& lock_decided(row_at(before, (record.key, record.user_id)), record, now, outcome)
            &&& after == committed(before, outcome)
        },
        StoreOp::Finish { key, user_id, status, response, update } => {
            &&& finishes(update, key, user_id, status, response)
            &&& after == applied(before, update)
        },
        StoreOp::CleanUp { now, update } => {
            &&& now.valid()
            &&& cleans_up(update, now)
            &&& after == applied(before, update)
        },
    }
}

/// Whether `op` is about the row of `id`.
pub open spec fn concerns(op: StoreOp, id: RowId) -> bool {
    match op {
        StoreOp::Lock { record, .. } => id == (record.key, record.user_id),
        StoreOp::Finish { key, user_id, .. } => id == (key, user_id),
        StoreOp::CleanUp { .. } => false,
    }
}

/// Every row stands under its own key and user.
pub open spec fn well_keyed(table: Table) -> bool {
    forall|id: RowId| #[trigger]
        table.contains_key(id) ==> table[id].key == id.0 && table[id].user_id == id.1
}

/// Every row can be read.
pub open spec fn readable(table: Table) -> bool {
    forall|id: RowId| #[trigger] table.contains_key(id) ==> decoded(table[id]) is Ok
}

/// Whether what `op` writes can be read again: the years of the instants in it
/// have four digits.
pub open spec fn writes_readable(op: StoreOp) -> bool {
    match op {
        StoreOp::Lock { record, .. } => record.has_readable_times(),
        _ => true,
    }
}

} // verus!
