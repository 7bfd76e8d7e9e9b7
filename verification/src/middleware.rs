//! The life of one idempotent request: what is asked of the store, when the
//! handler runs, and what is answered.

use std::collections::HashMap;
use sha2::{Digest, Sha256};
use vstd::prelude::*;
use vstd::utf8::encode_utf8;
use crate::text::{hex, hex_text};
use crate::time::{
    checked_add, clock_shows, is_clock_reading, lemma_reading_is_shown, sum, sum_fits, utc_now,
    Duration, Timestamp,
};
use crate::types::{
    text_map, text_view, CachedResponse, ErrorView, IdempotencyError, IdempotencyRecord,
    IdempotencyStatus, LockResult, LockView, RecordView, ResponseView,
};

verus! {

broadcast use lemma_reading_is_shown;

/// The SHA-256 digest of some bytes.
pub uninterp spec fn sha256(data: Seq<u8>) -> Seq<u8>;

/// `sha2::Sha256` over `data` in one piece: a digest of 32 bytes.
#[verifier::external_body]
fn sha256_digest(data: &[u8]) -> (res: Vec<u8>)
    ensures
        res@ == sha256(data@),
        res@.len() == 32,
{
    let mut hasher = Sha256::new();
    hasher.update(data);
    hasher.finalize().to_vec()
}

/// The 128 bits, first byte highest, of the UUID that a text writes, where
/// `uuid::Uuid::parse_str` reads one.
pub uninterp spec fn uuid_bits(text: Seq<char>) -> Option<u128>;

/// `uuid::Uuid::parse_str`. Its error is not kept.
#[verifier::external_body]
fn parse_uuid(text: &str) -> (res: Option<u128>)
    ensures
        res == uuid_bits(text@),
{
    match uuid::Uuid::parse_str(text) {
        Ok(uuid) => Some(uuid.as_u128()),
        Err(_) => None,
    }
}

/// Whether the version field of a UUID, the upper half of its seventh byte, is 4.
pub open spec fn is_version_4(bits: u128) -> bool {
    (bits / 0x1000_0000_0000_0000_0000u128) % 16 == 4
}

/// Whether a text is fit to be an idempotency key: a UUID of version 4.
pub open spec fn is_idempotency_key(text: Seq<char>) -> bool {
    uuid_bits(text) matches Some(bits) && is_version_4(bits)
}

/// `uuid::Uuid::new_v4` and its text as `Display` writes it. The bits are drawn at
/// random but for the version, which is 4, and the variant; the text is one that
/// `uuid::Uuid::parse_str` reads. It panics where the machine has no source of
/// random numbers.
#[verifier::external_body]
pub(crate) fn random_key() -> (res: String)
    ensures
        is_idempotency_key(res@),
{
    uuid::Uuid::new_v4().to_string()
}

/// Accepts the bits of a UUID of version 4 and nothing else.
pub fn check_key_bits(bits: Option<u128>) -> (res: Result<(), IdempotencyError>)
    ensures
        res is Ok <==> (bits matches Some(b) && is_version_4(b)),
        res matches Err(e) ==> e is InvalidKeyFormat,
{
    match bits {
        Some(b) if (b / 0x1000_0000_0000_0000_0000u128) % 16 == 4 => Ok(()),
        _ => Err(IdempotencyError::InvalidKeyFormat),
    }
}

/// The text that stands for a request: its JSON, or nothing where it has none.
pub open spec fn request_text(request: Option<Seq<char>>) -> Seq<char> {
    match request {
        Some(json) => json,
        None => Seq::empty(),
    }
}

/// The fingerprint of a request: its SHA-256 digest in hexadecimal.
pub open spec fn fingerprint(request: Option<Seq<char>>) -> Seq<char> {
    hex(sha256(encode_utf8(request_text(request))))
}

/// Keeps each request from being handled twice. It holds the store of records, how long a
/// record is kept, and how long a request may hold its lock.
#[derive(Clone)]
pub struct IdempotencyMiddleware<S> {
    store: S,
    ttl: Duration,
    lock_timeout: Duration,
}

impl<S> IdempotencyMiddleware<S> {
    /// The store that the middleware was made with.
    pub closed spec fn spec_store(&self) -> S {
        self.store
    }

    /// How long a record is kept.
    pub closed spec fn ttl(&self) -> Duration {
        self.ttl
    }

    /// How long a request may hold its lock.
    pub closed spec fn lock_timeout(&self) -> Duration {
        self.lock_timeout
    }

    /// Both spans are ones that can be added to an instant.
    pub open spec fn valid(&self) -> bool {
        self.ttl().valid() && self.lock_timeout().valid()
    }

    /// Whether a request that comes at `now` gets its two deadlines from the calendar.
    pub open spec fn deadlines_fit(&self, now: Timestamp) -> bool {
        sum_fits(now, self.ttl()) && sum_fits(now, self.lock_timeout())
    }

    /// Records are kept for 24 hours, and a lock for 30 seconds.
    pub fn new(store: S) -> (res: Self)
        ensures
            res.valid(),
            res.spec_store() == store,
            res.ttl() == (Duration { secs: 86_400, nanos: 0 }),
            res.lock_timeout() == (Duration { secs: 30, nanos: 0 }),
    {
        IdempotencyMiddleware {
            store,
            ttl: Duration { secs: 86_400, nanos: 0 },
            lock_timeout: Duration { secs: 30, nanos: 0 },
        }
    }

    /// Records are kept for `ttl`, and a lock for `lock_timeout`.
    pub fn with_config(store: S, ttl: Duration, lock_timeout: Duration) -> (res: Self)
        requires
            ttl.valid(),
            lock_timeout.valid(),
        ensures
            res.valid(),
            res.spec_store() == store,
            res.ttl() == ttl,
            res.lock_timeout() == lock_timeout,
    {
        IdempotencyMiddleware { store, ttl, lock_timeout }
    }

    /// The store underneath.
    pub fn store(&self) -> (res: &S)
        ensures
            *res == self.spec_store(),
    {
        &self.store
    }

    /// Accepts a key that is a UUID of version 4.
    pub fn validate_key(key: &str) -> (res: Result<(), IdempotencyError>)
        ensures
            res is Ok <==> is_idempotency_key(key@),
            res matches Err(e) ==> e is InvalidKeyFormat,
    {
        check_key_bits(parse_uuid(key))
    }

    /// The fingerprint of a request, given as JSON. A request that could not be
    /// written as JSON counts as an empty text.
    pub fn generate_fingerprint(request: Option<String>) -> (res: String)
        ensures
            res@ == fingerprint(text_view(request)),
            res@.len() == 64,
    {
        let json = match request {
            Some(json) => json,
            None => String::new(),
        };
        let digest = sha256_digest(json.as_str().as_bytes());
        hex_text(digest.as_slice())
    }

    /// Begins a request: gives the record whose lock is to be asked of the
    /// store, or says why the request has to be turned away. Where the key is
    /// sound the clock is read, once; `None` means that it stands so late that a
    /// deadline is past the end of the calendar.
    pub fn process_request(
        &self,
        idempotency_key: Option<String>,
        user_id: String,
        request_path: String,
        request_method: String,
        request: Option<String>,
    ) -> (res: Option<Result<IdempotencyRecord, IdempotencyError>>)
        requires
            self.valid(),
        ensures
            key_refusal(text_view(idempotency_key)) matches Some(refusal) ==> (res matches Some(
                Err(e),
            ) && e@ == refusal),
            key_refusal(text_view(idempotency_key)) is None ==> exists|now: Timestamp|
                #[trigger] is_clock_reading(now) && clock_shows(now) && (match res {
                    Some(Ok(record)) => {
                        &&& self.deadlines_fit(now)
                        &&& record@ == pending_record_view(
                            idempotency_key->0@,
                            user_id@,
                            request_path@,
                            request_method@,
                            fingerprint(text_view(request)),
                            now,
                            self.ttl(),
                            self.lock_timeout(),
                        )
                    },
                    Some(Err(_)) => false,
                    None => !self.deadlines_fit(now),
                }),
            res matches Some(Ok(record)) ==> record@.valid(),
    {
        let key = match check_key(idempotency_key) {
            Ok(key) => key,
            Err(e) => return Some(Err(e)),
        };
        let now = utc_now();
        self.begin_at(Some(key), user_id, request_path, request_method, request, now)
    }

    /// Begins a request that comes at `now`, or gives `None` where its key is sound
    /// but a deadline is past the end of the calendar.
    pub fn begin_at(
        &self,
        idempotency_key: Option<String>,
        user_id: String,
        request_path: String,
        request_method: String,
        request: Option<String>,
        now: Timestamp,
    ) -> (res: Option<Result<IdempotencyRecord, IdempotencyError>>)
        requires
            self.valid(),
            now.valid(),
            !now.is_leap(),
        ensures
            key_refusal(text_view(idempotency_key)) matches Some(refusal) ==> (res matches Some(
                Err(e),
            ) && e@ == refusal),
            key_refusal(text_view(idempotency_key)) is None ==> (res is None
                <==> !self.deadlines_fit(now)),
            key_refusal(text_view(idempotency_key)) is None && self.deadlines_fit(now) ==> (
            res matches Some(Ok(record)) && record@.valid() && record@ == pending_record_view(
                idempotency_key->0@,
                user_id@,
                request_path@,
                request_method@,
                fingerprint(text_view(request)),
                now,
                self.ttl(),
                self.lock_timeout(),
            )),
    {
        let key = match check_key(idempotency_key) {
            Ok(key) => key,
            Err(e) => return Some(Err(e)),
        };
        if checked_add(&now, &self.ttl).is_none() || checked_add(&now, &self.lock_timeout).is_none() {
            return None;
        }
        Some(
            self.process_request_at(Some(key), user_id, request_path, request_method, request, now),
        )
    }

    /// Begins a request that comes at `now`, where both deadlines are in the calendar.
    pub fn process_request_at(
        &self,
        idempotency_key: Option<String>,
        user_id: String,
        request_path: String,
        request_method: String,
        request: Option<String>,
        now: Timestamp,
    ) -> (res: Result<IdempotencyRecord, IdempotencyError>)
        requires
            self.valid(),
            now.valid(),
            !now.is_leap(),
            self.deadlines_fit(now),
        ensures
            match res {
                Ok(record) => key_refusal(text_view(idempotency_key)) is None && record@
                    == pending_record_view(
                    idempotency_key->0@,
                    user_id@,
                    request_path@,
                    request_method@,
                    fingerprint(text_view(request)),
                    now,
                    self.ttl(),
                    self.lock_timeout(),
                ),
                Err(e) => key_refusal(text_view(idempotency_key)) == Some(e@),
            },
            res matches Ok(record) ==> record@.valid(),
    {
        let key = check_key(idempotency_key)?;
        let fingerprint = Self::generate_fingerprint(request);
        Ok(self.pending_record(key, user_id, request_path, request_method, fingerprint, now))
    }

    /// The record of a request with a sound key that comes at `now`.
    pub fn pending_record(
        &self,
        key: String,
        user_id: String,
        request_path: String,
        request_method: String,
        request_fingerprint: String,
        now: Timestamp,
    ) -> (res: IdempotencyRecord)
        requires
            self.valid(),
            now.valid(),
            !now.is_leap(),
            self.deadlines_fit(now),
        ensures
            res@ == pending_record_view(
                key@,
                user_id@,
                request_path@,
                request_method@,
                request_fingerprint@,
                now,
                self.ttl(),
                self.lock_timeout(),
            ),
            res@.valid(),
    {
        let expires_at = checked_add(&now, &self.ttl).unwrap();
        let locked_until = checked_add(&now, &self.lock_timeout).unwrap();
        IdempotencyRecord {
            key,
            user_id,
            request_path,
            request_method,
            request_fingerprint,
            status: IdempotencyStatus::Pending,
            response: None,
            created_at: now,
            expires_at,
            locked_until: Some(locked_until),
        }
    }
}

/// Why a request with this key is turned away before anything is done, if it is.
pub open spec fn key_refusal(key: Option<Seq<char>>) -> Option<ErrorView> {
    match key {
        None => Some(ErrorView::MissingIdempotencyKey),
        Some(text) => if is_idempotency_key(text) {
            None
        } else {
            Some(ErrorView::InvalidKeyFormat)
        },
    }
}

fn check_key(key: Option<String>) -> (res: Result<String, IdempotencyError>)
    ensures
        match res {
            Ok(text) => key == Some(text) && key_refusal(text_view(key)) is None,
            Err(e) => key_refusal(text_view(key)) == Some(e@),
        },
{
    match key {
        None => Err(IdempotencyError::MissingIdempotencyKey),
        Some(text) => {
            match IdempotencyMiddleware::<()>::validate_key(text.as_str()) {
                Ok(()) => Ok(text),
                Err(e) => Err(e),
            }
        },
    }
}

/// The record of a request that begins at `now`: pending, without a response, to
/// be kept for `ttl`, its lock held for `lock_timeout`.
pub open spec fn pending_record_view(
    key: Seq<char>,
    user_id: Seq<char>,
    request_path: Seq<char>,
    request_method: Seq<char>,
    request_fingerprint: Seq<char>,
    now: Timestamp,
    ttl: Duration,
    lock_timeout: Duration,
) -> RecordView {
    RecordView {
        key,
        user_id,
        request_path,
        request_method,
        request_fingerprint,
        status: IdempotencyStatus::Pending,
        response: None,
        created_at: now,
        expires_at: sum(now, ttl),
        locked_until: Some(sum(now, lock_timeout)),
    }
}

/// What to do once the store has answered for the lock.
pub enum NextStep {
    /// The lock is held: run the handler.
    RunHandler,
    /// Answer with this response, without running the handler.
    Respond(CachedResponse),
    /// Answer with this error, without running the handler.
    Refuse(IdempotencyError),
}

/// A `NextStep` over views.
pub enum NextStepView {
    RunHandler,
    Respond(ResponseView),
    Refuse(ErrorView),
}

impl View for NextStep {
    type V = NextStepView;

    open spec fn view(&self) -> NextStepView {
        match self {
            NextStep::RunHandler => NextStepView::RunHandler,
            NextStep::Respond(response) => NextStepView::Respond(response@),
            NextStep::Refuse(e) => NextStepView::Refuse(e@),
        }
    }
}

/// The step that each lock result calls for.
pub open spec fn next_step(lock: LockView) -> NextStepView {
    match lock {
        LockView::Acquired => NextStepView::RunHandler,
        LockView::AlreadyCompleted(response) => NextStepView::Respond(response),
        LockView::FailedPermanently(response) => NextStepView::Respond(response),
        LockView::InProgress { retry_after } => NextStepView::Refuse(
            ErrorView::RequestInProgress { retry_after },
        ),
        LockView::KeyReused => NextStepView::Refuse(ErrorView::KeyReusedWithDifferentRequest),
    }
}

/// Decides what follows a lock result. The handler runs only under the lock.
pub fn after_lock(lock: LockResult) -> (res: NextStep)
    ensures
        res@ == next_step(lock@),
{
    match lock {
        LockResult::Acquired => NextStep::RunHandler,
        LockResult::AlreadyCompleted(response) => NextStep::Respond(response),
        LockResult::FailedPermanently(response) => NextStep::Respond(response),
        LockResult::InProgress { retry_after } => {
            NextStep::Refuse(IdempotencyError::RequestInProgress { retry_after })
        },
        LockResult::KeyReused => NextStep::Refuse(IdempotencyError::KeyReusedWithDifferentRequest),
    }
}

/// What a handler that ran to its end gives: a status code, headers, and the
/// body as bytes, or the message with which writing the body failed.
pub struct HandlerReply {
    pub status_code: u16,
    pub headers: HashMap<String, String>,
    pub body: Result<Vec<u8>, String>,
}

/// What the store is to be told once the handler is done, and what is then answered.
pub enum Settlement {
    /// Store `status` and `response`, and answer with the response.
    Complete { status: IdempotencyStatus, response: CachedResponse },
    /// Give the lock back as failed, and answer with the error.
    Release { is_retryable: bool, error: IdempotencyError },
    /// Tell the store nothing, and answer with the error.
    Abandon { error: IdempotencyError },
}

/// A `Settlement` over views.
pub enum SettlementView {
    Complete { status: IdempotencyStatus, response: ResponseView },
    Release { is_retryable: bool, error: ErrorView },
    Abandon { error: ErrorView },
}

impl View for Settlement {
    type V = SettlementView;

    open spec fn view(&self) -> SettlementView {
        match self {
            Settlement::Complete { status, response } => SettlementView::Complete {
                status: *status,
                response: response@,
            },
            Settlement::Release { is_retryable, error } => SettlementView::Release {
                is_retryable: *is_retryable,
                error: error@,
            },
            Settlement::Abandon { error } => SettlementView::Abandon { error: error@ },
        }
    }
}

/// How a request ends whose handler answered with `status_code`: server errors may be
/// tried again, client errors are final, and all else is a success.
pub open spec fn final_status(status_code: u16) -> IdempotencyStatus {
    if status_code >= 500 {
        IdempotencyStatus::Failed { is_retryable: true }
    } else if status_code >= 400 {
        IdempotencyStatus::Failed { is_retryable: false }
    } else {
        IdempotencyStatus::Completed
    }
}

/// The settlement that a handler's outcome calls for.
pub open spec fn settlement(outcome: Result<HandlerReply, IdempotencyError>) -> SettlementView {
    match outcome {
        Ok(reply) => match reply.body {
            Ok(body) => SettlementView::Complete {
                status: final_status(reply.status_code),
                response: ResponseView {
                    status_code: reply.status_code,
                    headers: text_map(reply.headers@),
                    body: body@,
                },
            },
            Err(message) => SettlementView::Abandon { error: ErrorView::StorageError(message@) },
        },
        Err(e) => SettlementView::Release { is_retryable: e@.is_retryable(), error: e@ },
    }
}

/// Decides how the request is settled once its handler is done.
pub fn after_handler(outcome: Result<HandlerReply, IdempotencyError>) -> (res: Settlement)
    ensures
        res@ == settlement(outcome),
{
    match outcome {
        Ok(reply) => {
            let status = if reply.status_code >= 500 {
                IdempotencyStatus::Failed { is_retryable: true }
            } else if reply.status_code >= 400 {
                IdempotencyStatus::Failed { is_retryable: false }
            } else {
                IdempotencyStatus::Completed
            };
            match reply.body {
                Ok(body) => Settlement::Complete {
                    status,
                    response: CachedResponse {
                        status_code: reply.status_code,
                        headers: reply.headers,
                        body,
                    },
                },
                Err(message) => Settlement::Abandon {
                    error: IdempotencyError::StorageError(message),
                },
            }
        },
        Err(error) => {
            let is_retryable = error.is_retryable();
            Settlement::Release { is_retryable, error }
        },
    }
}

/// The view of an answer.
pub open spec fn answer_view(answer: Result<CachedResponse, IdempotencyError>) -> Result<
    ResponseView,
    ErrorView,
> {
    match answer {
        Ok(response) => Ok(response@),
        Err(e) => Err(e@),
    }
}

/// The answer to a request that was settled so, the store having failed with
/// `store_error` or not at all.
pub open spec fn answer(settled: SettlementView, store_error: Option<ErrorView>) -> Result<
    ResponseView,
    ErrorView,
> {
    match (settled, store_error) {
        (SettlementView::Abandon { error }, _) => Err(error),
        (_, Some(e)) => Err(e),
        (SettlementView::Complete { response, .. }, None) => Ok(response),
        (SettlementView::Release { error, .. }, None) => Err(error),
    }
}

/// The view of the error that the store gave, if it gave one.
pub open spec fn store_error_view(stored: Result<(), IdempotencyError>) -> Option<ErrorView> {
    match stored {
        Ok(()) => None,
        Err(e) => Some(e@),
    }
}

/// Gives the answer to a request once the store was told of its settlement.
pub fn after_settlement(settled: Settlement, stored: Result<(), IdempotencyError>) -> (res: Result<
    CachedResponse,
    IdempotencyError,
>)
    ensures
        answer_view(res) == answer(settled@, store_error_view(stored)),
{
    match settled {
        Settlement::Abandon { error } => Err(error),
        Settlement::Complete { status: _, response } => match stored {
            Ok(()) => Ok(response),
            Err(e) => Err(e),
        },
        Settlement::Release { is_retryable: _, error } => match stored {
            Ok(()) => Err(error),
            Err(e) => Err(e),
        },
    }
}

} // verus!
