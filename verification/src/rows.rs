//! The rows in which records are stored.

use std::collections::HashMap;
use vstd::prelude::*;
use crate::headers::{headers_from_json, headers_to_json, json_text_map};
use crate::time::{parse_rfc3339, renders, rfc3339_instant, to_rfc3339, Timestamp};
use crate::types::{
    response_view, text_map, text_view, CachedResponse, ErrorView, IdempotencyError,
    IdempotencyRecord, IdempotencyStatus, RecordView, ResponseView,
};

verus! {

/// The text in which a status is stored.
pub open spec fn status_text(status: IdempotencyStatus) -> Seq<char> {
    match status {
        IdempotencyStatus::Pending => "pending"@,
        IdempotencyStatus::Completed => "completed"@,
        IdempotencyStatus::Failed { is_retryable: true } => "failed:retryable"@,
        IdempotencyStatus::Failed { is_retryable: false } => "failed:permanent"@,
    }
}

/// The status that a stored text stands for. An unknown text stands for a pending one.
pub open spec fn status_of(text: Seq<char>) -> IdempotencyStatus {
    if text == "completed"@ {
        IdempotencyStatus::Completed
    } else if text == "failed:retryable"@ {
        IdempotencyStatus::Failed { is_retryable: true }
    } else if text == "failed:permanent"@ {
        IdempotencyStatus::Failed { is_retryable: false }
    } else {
        IdempotencyStatus::Pending
    }
}

/// Writes a status as it is stored.
pub fn serialize_status(status: &IdempotencyStatus) -> (res: String)
    ensures
        res@ == status_text(*status),
{
    match status {
        IdempotencyStatus::Pending => "pending".to_string(),
        IdempotencyStatus::Completed => "completed".to_string(),
        IdempotencyStatus::Failed { is_retryable } => {
            if *is_retryable {
                "failed:retryable".to_string()
            } else {
                "failed:permanent".to_string()
            }
        },
    }
}

/// Reads a stored status.
pub fn deserialize_status(status: &str) -> (res: IdempotencyStatus)
    ensures
        res == status_of(status@),
{
    let text = status.to_string();
    if text == "completed".to_string() {
        IdempotencyStatus::Completed
    } else if text == "failed:retryable".to_string() {
        IdempotencyStatus::Failed { is_retryable: true }
    } else if text == "failed:permanent".to_string() {
        IdempotencyStatus::Failed { is_retryable: false }
    } else {
        IdempotencyStatus::Pending
    }
}

/// One row of the table of records, column by column.
#[derive(Clone, Debug)]
pub struct StoredRow {
    pub key: String,
    pub user_id: String,
    pub request_path: String,
    pub request_method: String,
    pub request_fingerprint: String,
    pub status: String,
    pub response_status_code: Option<i32>,
    pub response_headers: Option<String>,
    pub response_body: Option<Vec<u8>>,
    pub created_at: String,
    pub expires_at: String,
    pub locked_until: Option<String>,
}

/// A `StoredRow`, its texts as sequences of characters.
#[verifier::ext_equal]
pub struct RowView {
    pub key: Seq<char>,
    pub user_id: Seq<char>,
    pub request_path: Seq<char>,
    pub request_method: Seq<char>,
    pub request_fingerprint: Seq<char>,
    pub status: Seq<char>,
    pub response_status_code: Option<i32>,
    pub response_headers: Option<Seq<char>>,
    pub response_body: Option<Seq<u8>>,
    pub created_at: Seq<char>,
    pub expires_at: Seq<char>,
    pub locked_until: Option<Seq<char>>,
}

/// The view of optional bytes.
pub open spec fn bytes_view(bytes: Option<Vec<u8>>) -> Option<Seq<u8>> {
    match bytes {
        Some(b) => Some(b@),
        None => None,
    }
}

impl View for StoredRow {
    type V = RowView;

    open spec fn view(&self) -> RowView {
        RowView {
            key: self.key@,
            user_id: self.user_id@,
            request_path: self.request_path@,
            request_method: self.request_method@,
            request_fingerprint: self.request_fingerprint@,
            status: self.status@,
            response_status_code: self.response_status_code,
            response_headers: text_view(self.response_headers),
            response_body: bytes_view(self.response_body),
            created_at: self.created_at@,
            expires_at: self.expires_at@,
            locked_until: text_view(self.locked_until),
        }
    }
}

/// The response that a row holds, its headers having been read as `headers`.
pub open spec fn row_response(
    row: RowView,
    headers: Option<Map<Seq<char>, Seq<char>>>,
) -> Option<ResponseView> {
    match row.response_status_code {
        None => None,
        Some(code) => Some(
            ResponseView {
                status_code: code as u16,
                headers: match headers {
                    Some(map) => map,
                    None => Map::empty(),
                },
                body: match row.response_body {
                    Some(body) => body,
                    None => Seq::empty(),
                },
            },
        ),
    }
}

/// The record that a row holds, its headers and its instants having been read.
pub open spec fn assembled(
    row: RowView,
    headers: Option<Map<Seq<char>, Seq<char>>>,
    created_at: Result<Timestamp, Seq<char>>,
    expires_at: Result<Timestamp, Seq<char>>,
    locked_until: Option<Timestamp>,
) -> Result<RecordView, ErrorView> {
    match (created_at, expires_at) {
        (Err(message), _) => Err(ErrorView::StorageError(message)),
        (Ok(_), Err(message)) => Err(ErrorView::StorageError(message)),
        (Ok(created_at), Ok(expires_at)) => Ok(
            RecordView {
                key: row.key,
                user_id: row.user_id,
                request_path: row.request_path,
                request_method: row.request_method,
                request_fingerprint: row.request_fingerprint,
                status: status_of(row.status),
                response: row_response(row, headers),
                created_at,
                expires_at,
                locked_until,
            },
        ),
    }
}

/// The instant that a stored text stands for, or the message of the error.
pub open spec fn read_instant(text: Seq<char>) -> Result<Timestamp, Seq<char>> {
    match rfc3339_instant(text) {
        Ok((secs, nanos)) => Ok(Timestamp { secs, nanos }),
        Err(message) => Err(message),
    }
}

/// The instant until which a row is locked. A text that is no instant counts as no lock.
pub open spec fn read_lock(text: Option<Seq<char>>) -> Option<Timestamp> {
    match text {
        Some(t) => match read_instant(t) {
            Ok(until) => Some(until),
            Err(_) => None,
        },
        None => None,
    }
}

/// The headers that a row holds. A text that is no map of strings counts as no headers.
pub open spec fn read_headers(text: Option<Seq<char>>) -> Option<Map<Seq<char>, Seq<char>>> {
    match text {
        Some(t) => json_text_map(t),
        None => None,
    }
}

/// The record that a row holds, or the error with which it cannot be read.
pub open spec fn decoded(row: RowView) -> Result<RecordView, ErrorView> {
    assembled(
        row,
        read_headers(row.response_headers),
        read_instant(row.created_at),
        read_instant(row.expires_at),
        read_lock(row.locked_until),
    )
}

/// The view of a record that was read, or of the error.
pub open spec fn record_result_view(res: Result<IdempotencyRecord, IdempotencyError>) -> Result<
    RecordView,
    ErrorView,
> {
    match res {
        Ok(record) => Ok(record@),
        Err(e) => Err(e@),
    }
}

/// The view of an instant that was read, or of the message of the error.
pub open spec fn instant_view(res: Result<Timestamp, String>) -> Result<Timestamp, Seq<char>> {
    match res {
        Ok(t) => Ok(t),
        Err(message) => Err(message@),
    }
}

/// The view of headers that were read.
pub open spec fn headers_view(headers: Option<HashMap<String, String>>) -> Option<
    Map<Seq<char>, Seq<char>>,
> {
    match headers {
        Some(map) => Some(text_map(map@)),
        None => None,
    }
}

proof fn lemma_no_texts(m: Map<String, String>)
    requires
        m == Map::<String, String>::empty(),
    ensures
        text_map(m) == Map::<Seq<char>, Seq<char>>::empty(),
{
    assert(text_map(m) =~= Map::<Seq<char>, Seq<char>>::empty());
}

/// Puts a record together from a row, its headers and its instants.
pub fn assemble_record(
    row: StoredRow,
    headers: Option<HashMap<String, String>>,
    created_at: Result<Timestamp, String>,
    expires_at: Result<Timestamp, String>,
    locked_until: Option<Timestamp>,
) -> (res: Result<IdempotencyRecord, IdempotencyError>)
    ensures
        record_result_view(res) == assembled(
            row@,
            headers_view(headers),
            instant_view(created_at),
            instant_view(expires_at),
            locked_until,
        ),
{
    let status = deserialize_status(row.status.as_str());
    let response = match row.response_status_code {
        Some(status_code) => {
            let headers = match headers {
                Some(map) => map,
                None => {
                    let none = HashMap::new();
                    proof {
                        lemma_no_texts(none@);
                    }
                    none
                },
            };
            let body = match row.response_body {
                Some(body) => body,
                None => Vec::new(),
            };
            Some(CachedResponse { status_code: status_code as u16, headers, body })
        },
        None => None,
    };
    let created_at = match created_at {
        Ok(t) => t,
        Err(message) => return Err(IdempotencyError::StorageError(message)),
    };
    let expires_at = match expires_at {
        Ok(t) => t,
        Err(message) => return Err(IdempotencyError::StorageError(message)),
    };
    Ok(
        IdempotencyRecord {
            key: row.key,
            user_id: row.user_id,
            request_path: row.request_path,
            request_method: row.request_method,
            request_fingerprint: row.request_fingerprint,
            status,
            response,
            created_at,
            expires_at,
            locked_until,
        },
    )
}

/// Reads the record that a row holds.
pub fn record_from_row(row: StoredRow) -> (res: Result<IdempotencyRecord, IdempotencyError>)
    ensures
        record_result_view(res) == decoded(row@),
        res matches Ok(record) ==> record@.valid(),
{
    let headers = match &row.response_headers {
        Some(text) => headers_from_json(text.as_str()),
        None => None,
    };
    let created_at = parse_rfc3339(row.created_at.as_str());
    let expires_at = parse_rfc3339(row.expires_at.as_str());
    let locked_until = match &row.locked_until {
        Some(text) => match parse_rfc3339(text.as_str()) {
            Ok(until) => Some(until),
            Err(_) => None,
        },
        None => None,
    };
    assemble_record(row, headers, created_at, expires_at, locked_until)
}

/// Whether three columns hold a response, or nothing where there is none.
pub open spec fn holds_response(
    status_code: Option<i32>,
    headers: Option<Seq<char>>,
    body: Option<Seq<u8>>,
    response: Option<ResponseView>,
) -> bool {
    match response {
        None => status_code is None && headers is None && body is None,
        Some(r) => {
            &&& status_code == Some(r.status_code as i32)
            &&& headers matches Some(text) && json_text_map(text) == Some(r.headers)
            &&& body == Some(r.body)
        },
    }
}

/// Whether a column holds an optional instant.
pub open spec fn holds_lock(text: Option<Seq<char>>, until: Option<Timestamp>) -> bool {
    match (text, until) {
        (Some(t), Some(u)) => renders(t, u),
        (None, None) => true,
        _ => false,
    }
}

/// Whether a row holds a record.
pub open spec fn holds_record(row: RowView, record: RecordView) -> bool {
    &&& row.key == record.key
    &&& row.user_id == record.user_id
    &&& row.request_path == record.request_path
    &&& row.request_method == record.request_method
    &&& row.request_fingerprint == record.request_fingerprint
    &&& row.status == status_text(record.status)
    &&& holds_response(
        row.response_status_code,
        row.response_headers,
        row.response_body,
        record.response,
    )
    &&& renders(row.created_at, record.created_at)
    &&& renders(row.expires_at, record.expires_at)
    &&& holds_lock(row.locked_until, record.locked_until)
}

/// The three columns that hold a response.
pub(crate) fn response_columns(response: &Option<CachedResponse>) -> (res: (
    Option<i32>,
    Option<String>,
    Option<Vec<u8>>,
))
    ensures
        holds_response(
            res.0,
            text_view(res.1),
            bytes_view(res.2),
            response_view(*response),
        ),
{
    match response {
        Some(r) => (
            Some(r.status_code as i32),
            Some(headers_to_json(&r.headers)),
            Some(r.body.clone()),
        ),
        None => (None, None, None),
    }
}

/// The column that holds an optional instant.
pub(crate) fn lock_column(until: &Option<Timestamp>) -> (res: Option<String>)
    requires
        until matches Some(u) ==> u.valid(),
    ensures
        holds_lock(text_view(res), *until),
{
    match until {
        Some(u) => Some(to_rfc3339(u)),
        None => None,
    }
}

/// Writes a record as a row.
pub fn row_from_record(record: &IdempotencyRecord) -> (res: StoredRow)
    requires
        record@.valid(),
    ensures
        holds_record(res@, record@),
{
    let (response_status_code, response_headers, response_body) = response_columns(
        &record.response,
    );
    StoredRow {
        key: record.key.clone(),
        user_id: record.user_id.clone(),
        request_path: record.request_path.clone(),
        request_method: record.request_method.clone(),
        request_fingerprint: record.request_fingerprint.clone(),
        status: serialize_status(&record.status),
        response_status_code,
        response_headers,
        response_body,
        created_at: to_rfc3339(&record.created_at),
        expires_at: to_rfc3339(&record.expires_at),
        locked_until: lock_column(&record.locked_until),
    }
}

} // verus!
