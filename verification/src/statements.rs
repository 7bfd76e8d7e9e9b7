//! The statements that read and change the table of records.

use vstd::prelude::*;
use crate::rows::{bytes_view, RowView, StoredRow};
use crate::types::text_view;

verus! {

/// The statement that makes the table of records and its indexes.
pub const SCHEMA_SQL: &'static str = r#"
    CREATE TABLE IF NOT EXISTS idempotency_records (
        key TEXT NOT NULL,
        user_id TEXT NOT NULL,
        request_path TEXT NOT NULL,
        request_method TEXT NOT NULL,
        request_fingerprint TEXT NOT NULL,
        status TEXT NOT NULL,
        response_status_code INTEGER,
        response_headers TEXT,
        response_body BLOB,
        created_at TEXT NOT NULL,
        expires_at TEXT NOT NULL,
        locked_until TEXT,
        PRIMARY KEY (key, user_id)
    );

    CREATE INDEX IF NOT EXISTS idx_expires_at ON idempotency_records(expires_at);
    CREATE INDEX IF NOT EXISTS idx_user_id ON idempotency_records(user_id);
    CREATE INDEX IF NOT EXISTS idx_locked_until ON idempotency_records(locked_until);
"#;

/// The query for the row of a key and a user.
pub const SELECT_SQL: &'static str = r#"
    SELECT key, user_id, request_path, request_method,
           request_fingerprint, status, response_status_code,
           response_headers, response_body, created_at,
           expires_at, locked_until
    FROM idempotency_records
    WHERE key = ? AND user_id = ?
"#;

/// The statement of `StoreUpdate::Insert`.
pub const INSERT_SQL: &'static str = r#"
    INSERT INTO idempotency_records (
        key, user_id, request_path, request_method,
        request_fingerprint, status, response_status_code,
        response_headers, response_body, created_at,
        expires_at, locked_until
    ) VALUES (?, ?, ?, ?, ?, ?, ?, ?, ?, ?, ?, ?)
"#;

/// The statement of `StoreUpdate::Relock`.
pub const RELOCK_SQL: &'static str = r#"
    UPDATE idempotency_records
    SET status = ?, locked_until = ?, created_at = ?
    WHERE key = ? AND user_id = ?
"#;

/// The statement of `StoreUpdate::Finish`.
pub const FINISH_SQL: &'static str = r#"
    UPDATE idempotency_records
    SET status = ?,
        response_status_code = ?,
        response_headers = ?,
        response_body = ?,
        locked_until = NULL
    WHERE key = ? AND user_id = ?
"#;

/// The statement of `StoreUpdate::DeleteExpired`.
pub const DELETE_EXPIRED_SQL: &'static str = "DELETE FROM idempotency_records WHERE expires_at < ?";

/// A change of the table of records.
#[derive(Debug)]
pub enum StoreUpdate {
    /// Put a new row in.
    Insert(StoredRow),
    /// Give the row of `key` and `user_id` a new lock.
    Relock {
        key: String,
        user_id: String,
        status: String,
        locked_until: Option<String>,
        created_at: String,
    },
    /// Give the row of `key` and `user_id` its outcome, and take its lock away.
    Finish {
        key: String,
        user_id: String,
        status: String,
        response_status_code: Option<i32>,
        response_headers: Option<String>,
        response_body: Option<Vec<u8>>,
    },
    /// Take every row out whose `expires_at` comes before `now`, both as text.
    DeleteExpired { now: String },
}

/// A `StoreUpdate` over views.
pub enum UpdateView {
    Insert(RowView),
    Relock {
        key: Seq<char>,
        user_id: Seq<char>,
        status: Seq<char>,
        locked_until: Option<Seq<char>>,
        created_at: Seq<char>,
    },
    Finish {
        key: Seq<char>,
        user_id: Seq<char>,
        status: Seq<char>,
        response_status_code: Option<i32>,
        response_headers: Option<Seq<char>>,
        response_body: Option<Seq<u8>>,
    },
    DeleteExpired { now: Seq<char> },
}

impl View for StoreUpdate {
    type V = UpdateView;

    open spec fn view(&self) -> UpdateView {
        match self {
            StoreUpdate::Insert(row) => UpdateView::Insert(row@),
            StoreUpdate::Relock { key, user_id, status, locked_until, created_at } => {
                UpdateView::Relock {
                    key: key@,
                    user_id: user_id@,
                    status: status@,
                    locked_until: text_view(*locked_until),
                    created_at: created_at@,
                }
            },
            StoreUpdate::Finish {
                key,
                user_id,
                status,
                response_status_code,
                response_headers,
                response_body,
            } => UpdateView::Finish {
                key: key@,
                user_id: user_id@,
                status: status@,
                response_status_code: *response_status_code,
                response_headers: text_view(*response_headers),
                response_body: bytes_view(*response_body),
            },
            StoreUpdate::DeleteExpired { now } => UpdateView::DeleteExpired { now: now@ },
        }
    }
}

/// The view of an optional change.
pub open spec fn update_view(update: Option<StoreUpdate>) -> Option<UpdateView> {
    match update {
        Some(u) => Some(u@),
        None => None,
    }
}

/// A value that takes the place of a `?` in a statement.
#[derive(Debug)]
pub enum SqlValue {
    Text(String),
    Integer(i32),
    Blob(Vec<u8>),
    Null,
}

/// An `SqlValue` over views.
pub enum ValueView {
    Text(Seq<char>),
    Integer(i32),
    Blob(Seq<u8>),
    Null,
}

impl View for SqlValue {
    type V = ValueView;

    open spec fn view(&self) -> ValueView {
        match self {
            SqlValue::Text(text) => ValueView::Text(text@),
            SqlValue::Integer(n) => ValueView::Integer(*n),
            SqlValue::Blob(bytes) => ValueView::Blob(bytes@),
            SqlValue::Null => ValueView::Null,
        }
    }
}

impl ValueView {
    /// A text, or null where there is none.
    pub open spec fn text_or_null(text: Option<Seq<char>>) -> ValueView {
        match text {
            Some(t) => ValueView::Text(t),
            None => ValueView::Null,
        }
    }

    /// An integer, or null where there is none.
    pub open spec fn integer_or_null(n: Option<i32>) -> ValueView {
        match n {
            Some(i) => ValueView::Integer(i),
            None => ValueView::Null,
        }
    }

    /// Bytes, or null where there are none.
    pub open spec fn blob_or_null(bytes: Option<Seq<u8>>) -> ValueView {
        match bytes {
            Some(b) => ValueView::Blob(b),
            None => ValueView::Null,
        }
    }
}

fn text_or_null(text: Option<String>) -> (res: SqlValue)
    ensures
        res@ == ValueView::text_or_null(text_view(text)),
{
    match text {
        Some(t) => SqlValue::Text(t),
        None => SqlValue::Null,
    }
}

fn integer_or_null(n: Option<i32>) -> (res: SqlValue)
    ensures
        res@ == ValueView::integer_or_null(n),
{
    match n {
        Some(i) => SqlValue::Integer(i),
        None => SqlValue::Null,
    }
}

fn blob_or_null(bytes: Option<Vec<u8>>) -> (res: SqlValue)
    ensures
        res@ == ValueView::blob_or_null(bytes_view(bytes)),
{
    match bytes {
        Some(b) => SqlValue::Blob(b),
        None => SqlValue::Null,
    }
}

impl UpdateView {
    /// The statement that makes the change.
    pub open spec fn sql(self) -> Seq<char> {
        match self {
            UpdateView::Insert(_) => INSERT_SQL@,
            UpdateView::Relock { .. } => RELOCK_SQL@,
            UpdateView::Finish { .. } => FINISH_SQL@,
            UpdateView::DeleteExpired { .. } => DELETE_EXPIRED_SQL@,
        }
    }

    /// The values for the statement's placeholders, in their order.
    pub open spec fn params(self) -> Seq<ValueView> {
        match self {
            UpdateView::Insert(row) => seq![
                ValueView::Text(row.key),
                ValueView::Text(row.user_id),
                ValueView::Text(row.request_path),
                ValueView::Text(row.request_method),
                ValueView::Text(row.request_fingerprint),
                ValueView::Text(row.status),
                ValueView::integer_or_null(row.response_status_code),
                ValueView::text_or_null(row.response_headers),
                ValueView::blob_or_null(row.response_body),
                ValueView::Text(row.created_at),
                ValueView::Text(row.expires_at),
                ValueView::text_or_null(row.locked_until),
            ],
            UpdateView::Relock { key, user_id, status, locked_until, created_at } => seq![
                ValueView::Text(status),
                ValueView::text_or_null(locked_until),
                ValueView::Text(created_at),
                ValueView::Text(key),
                ValueView::Text(user_id),
            ],
            UpdateView::Finish {
                key,
                user_id,
                status,
                response_status_code,
                response_headers,
                response_body,
            } => seq![
                ValueView::Text(status),
                ValueView::integer_or_null(response_status_code),
                ValueView::text_or_null(response_headers),
                ValueView::blob_or_null(response_body),
                ValueView::Text(key),
                ValueView::Text(user_id),
            ],
            UpdateView::DeleteExpired { now } => seq![ValueView::Text(now)],
        }
    }
}

impl StoreUpdate {
    /// The statement that makes the change.
    pub fn sql(&self) -> (res: &'static str)
        ensures
            res@ == self@.sql(),
    {
        match self {
            StoreUpdate::Insert(_) => INSERT_SQL,
            StoreUpdate::Relock { .. } => RELOCK_SQL,
            StoreUpdate::Finish { .. } => FINISH_SQL,
            StoreUpdate::DeleteExpired { .. } => DELETE_EXPIRED_SQL,
        }
    }

    /// The values for the statement's placeholders, in their order.
    pub fn into_params(self) -> (res: Vec<SqlValue>)
        ensures
            res@.map_values(|value: SqlValue| value@) == self@.params(),
    {
        let ghost params = self@.params();
        let res = match self {
            StoreUpdate::Insert(row) => vec![
                SqlValue::Text(row.key),
                SqlValue::Text(row.user_id),
                SqlValue::Text(row.request_path),
                SqlValue::Text(row.request_method),
                SqlValue::Text(row.request_fingerprint),
                SqlValue::Text(row.status),
                integer_or_null(row.response_status_code),
                text_or_null(row.response_headers),
                blob_or_null(row.response_body),
                SqlValue::Text(row.created_at),
                SqlValue::Text(row.expires_at),
                text_or_null(row.locked_until),
            ],
            StoreUpdate::Relock { key, user_id, status, locked_until, created_at } => vec![
                SqlValue::Text(status),
                text_or_null(locked_until),
                SqlValue::Text(created_at),
                SqlValue::Text(key),
                SqlValue::Text(user_id),
            ],
            StoreUpdate::Finish {
                key,
                user_id,
                status,
                response_status_code,
                response_headers,
                response_body,
            } => vec![
                SqlValue::Text(status),
                integer_or_null(response_status_code),
                text_or_null(response_headers),
                blob_or_null(response_body),
                SqlValue::Text(key),
                SqlValue::Text(user_id),
            ],
            StoreUpdate::DeleteExpired { now } => vec![SqlValue::Text(now)],
        };
        assert(res@.map_values(|value: SqlValue| value@) =~= params);
        res
    }
}

} // verus!
