//! What holds of the calls that take one request from its key to its answer.
//!
//! Here and in the other laws on calls, `call_ensures(f, (a, b), res)` says that a call
//! of `f` on `a` and `b` gave `res`.

use vstd::prelude::*;
use vstd::utf8::encode_utf8;
use crate::laws::law_hex_is_injective;
use crate::middleware::{
    after_handler, after_lock, after_settlement, check_key_bits, sha256, uuid_bits, HandlerReply,
    IdempotencyMiddleware, NextStep, Settlement,
};
use crate::time::{
    clock_shows, is_clock_reading, law_clock_shows_only_readings, Duration, Timestamp,
};
use crate::types::{
    text_map, CachedResponse, IdempotencyError, IdempotencyRecord, IdempotencyStatus, LockResult,
};

verus! {

/// Whether two errors are the same one, with the same text or number.
pub open spec fn same_error(a: IdempotencyError, b: IdempotencyError) -> bool {
    match a {
        IdempotencyError::RequestInProgress { retry_after: n } => {
            b matches IdempotencyError::RequestInProgress { retry_after } && retry_after == n
        },
        IdempotencyError::KeyReusedWithDifferentRequest => b is KeyReusedWithDifferentRequest,
        IdempotencyError::MissingIdempotencyKey => b is MissingIdempotencyKey,
        IdempotencyError::StorageError(t) => {
            b matches IdempotencyError::StorageError(text) && text@ == t@
        },
        IdempotencyError::InvalidKeyFormat => b is InvalidKeyFormat,
        IdempotencyError::TransactionFailed(t) => {
            b matches IdempotencyError::TransactionFailed(text) && text@ == t@
        },
        IdempotencyError::ConcurrentRequestConflict => b is ConcurrentRequestConflict,
        IdempotencyError::HandlerFailed(t) => {
            b matches IdempotencyError::HandlerFailed(text) && text@ == t@
        },
    }
}

/// Whether two responses have the same status code, headers and body.
pub open spec fn same_response(a: CachedResponse, b: CachedResponse) -> bool {
    &&& a.status_code == b.status_code
    &&& text_map(a.headers@) == text_map(b.headers@)
    &&& a.body@ == b.body@
}

/// The texts of a map of strings are its entries, neither fewer nor more.
pub proof fn law_texts_of_a_map_are_its_entries(m: Map<String, String>, k: String)
    ensures
        m.contains_key(k) ==> text_map(m).contains_key(k@),
        (forall|j: String| #[trigger] m.contains_key(j) ==> j@ != k@) ==> !text_map(m).contains_key(
            k@,
        ),
        m.contains_key(k) && (forall|j: String| #[trigger] m.contains_key(j) && j@ == k@ ==> j == k)
            ==> text_map(m)[k@] == m[k]@,
{
}

/// The view of a response is its code, its headers and its body.
pub proof fn law_view_of_a_response(r: CachedResponse)
    ensures
        r@.status_code == r.status_code,
        r@.headers == text_map(r.headers@),
        r@.body == r.body@,
{
}

/// A handler's reply is kept as it is, and as what its status code makes of it: from 500 on
/// it may be tried again, from 400 to 499 it has failed for good, and below that it is done.
pub proof fn law_reply_is_settled_by_its_status_code(reply: HandlerReply, res: Settlement)
    requires
        call_ensures(after_handler, (Ok(reply),), res),
        reply.body is Ok,
    ensures
        res matches Settlement::Complete { status, response } && {
            &&& reply.status_code >= 500 <==> status == (IdempotencyStatus::Failed {
                is_retryable: true,
            })
            &&& 400 <= reply.status_code < 500 <==> status == (IdempotencyStatus::Failed {
                is_retryable: false,
            })
            &&& reply.status_code < 400 <==> status is Completed
            &&& response.status_code == reply.status_code
            &&& text_map(response.headers@) == text_map(reply.headers@)
            &&& response.body@ == reply.body->Ok_0@
        },
{
}

/// A reply whose body could not be written leaves the store alone, and the answer is a storage
/// error that says why.
pub proof fn law_unwritten_body_is_a_storage_error(
    reply: HandlerReply,
    settled: Settlement,
    stored: Result<(), IdempotencyError>,
    res: Result<CachedResponse, IdempotencyError>,
)
    requires
        reply.body is Err,
        call_ensures(after_handler, (Ok(reply),), settled),
        call_ensures(after_settlement, (settled, stored), res),
    ensures
        settled is Abandon,
        res matches Err(e) && e matches IdempotencyError::StorageError(text) && text@
            == reply.body->Err_0@,
{
}

/// Every error of a handler gives the lock back and is the answer, unless the store fails; it
/// may be tried again exactly where storage, a transaction or the handler itself failed.
pub proof fn law_handler_error_gives_the_lock_back(
    e: IdempotencyError,
    settled: Settlement,
    stored: Result<(), IdempotencyError>,
    res: Result<CachedResponse, IdempotencyError>,
)
    requires
        call_ensures(after_handler, (Err(e),), settled),
        call_ensures(after_settlement, (settled, stored), res),
    ensures
        settled matches Settlement::Release { is_retryable, error } && same_error(error, e) && (
        is_retryable <==> (e is StorageError || e is TransactionFailed || e is HandlerFailed)),
        stored is Ok ==> (res matches Err(answered) && same_error(answered, e)),
{
}

/// The answer is the response or the error of the settlement; where the store fails to take a
/// settlement, the store's error is the answer.
pub proof fn law_answer_follows_the_settlement(
    settled: Settlement,
    stored: Result<(), IdempotencyError>,
    res: Result<CachedResponse, IdempotencyError>,
)
    requires
        call_ensures(after_settlement, (settled, stored), res),
    ensures
        match settled {
            Settlement::Complete { status, response } => match stored {
                Ok(()) => res matches Ok(r) && same_response(r, response),
                Err(e) => res matches Err(answered) && same_error(answered, e),
            },
            Settlement::Release { is_retryable, error } => match stored {
                Ok(()) => res matches Err(answered) && same_error(answered, error),
                Err(e) => res matches Err(answered) && same_error(answered, e),
            },
            Settlement::Abandon { error } => res matches Err(answered) && same_error(
                answered,
                error,
            ),
        },
{
}

/// The handler runs under the lock and only there; a stored response is given again as it
/// is; and one who has to wait is told for how long.
pub proof fn law_handler_runs_exactly_under_the_lock(lock: LockResult, res: NextStep)
    requires
        call_ensures(after_lock, (lock,), res),
    ensures
        res is RunHandler <==> lock is Acquired,
        res is Respond <==> (lock is AlreadyCompleted || lock is FailedPermanently),
        lock matches LockResult::AlreadyCompleted(r) ==> same_response(res->Respond_0, r),
        lock matches LockResult::FailedPermanently(r) ==> same_response(res->Respond_0, r),
        lock matches LockResult::InProgress { retry_after: n } ==> (res matches NextStep::Refuse(e)
            && e matches IdempotencyError::RequestInProgress { retry_after } && retry_after == n),
        lock is KeyReused ==> (res matches NextStep::Refuse(e)
            && e is KeyReusedWithDifferentRequest),
{
}

/// Of the bits of a UUID only the version counts: `version` between any 48 bits before it and
/// any 76 bits after it is accepted exactly where it is 4.
pub proof fn law_key_is_judged_by_its_version(
    before: int,
    version: int,
    after: int,
    bits: u128,
    res: Result<(), IdempotencyError>,
    none: Result<(), IdempotencyError>,
)
    requires
        0 <= before < 0x1_0000_0000_0000,
        0 <= version < 16,
        0 <= after < 0x1000_0000_0000_0000_0000,
        bits == before * 0x1_0000_0000_0000_0000_0000 + version * 0x1000_0000_0000_0000_0000
            + after,
        call_ensures(check_key_bits, (Some(bits),), res),
        call_ensures(check_key_bits, (None,), none),
    ensures
        version == 4 ==> res is Ok,
        version != 4 ==> (res matches Err(e) && e is InvalidKeyFormat),
        none matches Err(e) && e is InvalidKeyFormat,
{
    assert(bits as int / 0x1000_0000_0000_0000_0000 == before * 16 + version);
    assert((before * 16 + version) % 16 == version);
}

/// A key is as good as the bits that are read in it.
pub proof fn law_key_is_as_good_as_its_bits<S>(
    key: &str,
    res: Result<(), IdempotencyError>,
    of_bits: Result<(), IdempotencyError>,
)
    requires
        call_ensures(IdempotencyMiddleware::<S>::validate_key, (key,), res),
        call_ensures(check_key_bits, (uuid_bits(key@),), of_bits),
    ensures
        res is Ok <==> of_bits is Ok,
        res matches Err(e) ==> e is InvalidKeyFormat,
{
}

/// The fingerprint is the SHA-256 digest of the whole of the request in UTF-8, with two
/// hexadecimal digits for each byte.
pub proof fn law_fingerprint_is_of_the_whole_request<S>(json: String, res: String)
    requires
        call_ensures(IdempotencyMiddleware::<S>::generate_fingerprint, (Some(json),), res),
    ensures
        res@.len() == 2 * sha256(encode_utf8(json@)).len(),
        forall|i: int|
            0 <= i < sha256(encode_utf8(json@)).len() ==> {
                let byte = #[trigger] sha256(encode_utf8(json@))[i] as int;
                &&& res@[2 * i] == "0123456789abcdef"@[byte / 16]
                &&& res@[2 * i + 1] == "0123456789abcdef"@[byte % 16]
            },
{
    reveal_strlit("0123456789abcdef");
    let bytes = sha256(encode_utf8(json@));
    assert forall|i: int| 0 <= i < bytes.len() implies {
        let byte = #[trigger] bytes[i] as int;
        &&& res@[2 * i] == "0123456789abcdef"@[byte / 16]
        &&& res@[2 * i + 1] == "0123456789abcdef"@[byte % 16]
    } by {
        assert((2 * i) / 2 == i && (2 * i + 1) / 2 == i && (2 * i) % 2 == 0 && (2 * i + 1) % 2
            == 1);
    }
}

/// Two requests have the same fingerprint exactly where the digests of their whole texts are
/// the same, and a request without JSON has that of an empty text.
pub proof fn law_fingerprints_differ_as_digests_do<S>(
    a: String,
    of_a: String,
    b: String,
    of_b: String,
    of_none: String,
)
    requires
        call_ensures(IdempotencyMiddleware::<S>::generate_fingerprint, (Some(a),), of_a),
        call_ensures(IdempotencyMiddleware::<S>::generate_fingerprint, (Some(b),), of_b),
        call_ensures(IdempotencyMiddleware::<S>::generate_fingerprint, (None,), of_none),
    ensures
        of_a@ == of_b@ <==> sha256(encode_utf8(a@)) == sha256(encode_utf8(b@)),
        a@.len() == 0 ==> of_none@ == of_a@,
{
    if of_a@ == of_b@ {
        law_hex_is_injective(sha256(encode_utf8(a@)), sha256(encode_utf8(b@)));
    }
    if a@.len() == 0 {
        assert(a@ =~= Seq::<char>::empty());
    }
}

/// Whether a span from `now` on ends before the calendar does.
pub open spec fn ends_in_the_calendar(now: Timestamp, span: Duration) -> bool {
    -8_334_601_228_800 * 1_000_000_000 <= now.secs * 1_000_000_000 + now.nanos + span.secs
        * 1_000_000_000 + span.nanos < 8_210_266_876_800 * 1_000_000_000
}

/// Whether `end` lies `span` after `now`.
pub open spec fn lies_after(end: Timestamp, now: Timestamp, span: Duration) -> bool {
    &&& end.nanos < 1_000_000_000
    &&& end.secs * 1_000_000_000 + end.nanos == now.secs * 1_000_000_000 + now.nanos + span.secs
        * 1_000_000_000 + span.nanos
}

/// Whether a key is one: a UUID whose version, the four bits above the lowest 76, is 4.
pub open spec fn is_sound(key: Option<String>) -> bool {
    key matches Some(text) && uuid_bits(text@) matches Some(bits) && (bits as int
        / 0x1000_0000_0000_0000_0000) % 16 == 4
}

/// Whether a request without a sound key was turned away for it.
pub open spec fn turns_away(
    key: Option<String>,
    res: Option<Result<IdempotencyRecord, IdempotencyError>>,
) -> bool {
    &&& key is None ==> (res matches Some(Err(e)) && e is MissingIdempotencyKey)
    &&& key is Some ==> (res matches Some(Err(e)) && e is InvalidKeyFormat)
}

/// Whether a record is that of a request which came at `now`: what it was, as it was, pending
/// and without a response, to be kept for `ttl` and locked for `lock_timeout`.
pub open spec fn records(
    record: IdempotencyRecord,
    key: Seq<char>,
    user_id: Seq<char>,
    request_path: Seq<char>,
    request_method: Seq<char>,
    request_fingerprint: Seq<char>,
    now: Timestamp,
    ttl: Duration,
    lock_timeout: Duration,
) -> bool {
    &&& record.key@ == key
    &&& record.user_id@ == user_id
    &&& record.request_path@ == request_path
    &&& record.request_method@ == request_method
    &&& record.request_fingerprint@ == request_fingerprint
    &&& record.status is Pending
    &&& record.response is None
    &&& record.created_at == now
    &&& lies_after(record.expires_at, now, ttl)
    &&& record.locked_until matches Some(until) && lies_after(until, now, lock_timeout)
}

/// A request with a sound key begins with its own record, at the instant it comes, unless a
/// deadline is past the end of the calendar; one without is turned away.
pub proof fn law_request_begins_with_its_record<S>(
    middleware: IdempotencyMiddleware<S>,
    key: Option<String>,
    user_id: String,
    request_path: String,
    request_method: String,
    request: Option<String>,
    now: Timestamp,
    fingerprint: String,
    res: Option<Result<IdempotencyRecord, IdempotencyError>>,
)
    requires
        middleware.valid(),
        now.valid(),
        !now.is_leap(),
        call_ensures(
            IdempotencyMiddleware::<S>::begin_at,
            (&middleware, key, user_id, request_path, request_method, request, now),
            res,
        ),
        call_ensures(
            IdempotencyMiddleware::<S>::generate_fingerprint,
            (request,),
            fingerprint,
        ),
    ensures
        !is_sound(key) ==> turns_away(key, res),
        is_sound(key) ==> (res is None <==> !(ends_in_the_calendar(now, middleware.ttl())
            && ends_in_the_calendar(now, middleware.lock_timeout()))),
        is_sound(key) && res is Some ==> (res matches Some(Ok(record)) && records(
            record,
            key->0@,
            user_id@,
            request_path@,
            request_method@,
            fingerprint@,
            now,
            middleware.ttl(),
            middleware.lock_timeout(),
        )),
{
}

/// Where both deadlines are in the calendar, the record is made of what is handed in, and the key is
/// asked for first.
pub proof fn law_record_is_made_of_what_is_handed_in<S>(
    middleware: IdempotencyMiddleware<S>,
    key: Option<String>,
    sound_key: String,
    user_id: String,
    request_path: String,
    request_method: String,
    request: Option<String>,
    request_fingerprint: String,
    now: Timestamp,
    fingerprint: String,
    made: IdempotencyRecord,
    res: Result<IdempotencyRecord, IdempotencyError>,
)
    requires
        middleware.valid(),
        now.valid(),
        !now.is_leap(),
        middleware.deadlines_fit(now),
        call_ensures(
            IdempotencyMiddleware::<S>::pending_record,
            (
                &middleware,
                sound_key,
                user_id,
                request_path,
                request_method,
                request_fingerprint,
                now,
            ),
            made,
        ),
        call_ensures(
            IdempotencyMiddleware::<S>::process_request_at,
            (&middleware, key, user_id, request_path, request_method, request, now),
            res,
        ),
        call_ensures(
            IdempotencyMiddleware::<S>::generate_fingerprint,
            (request,),
            fingerprint,
        ),
    ensures
        records(
            made,
            sound_key@,
            user_id@,
            request_path@,
            request_method@,
            request_fingerprint@,
            now,
            middleware.ttl(),
            middleware.lock_timeout(),
        ),
        !is_sound(key) ==> turns_away(key, Some(res)),
        is_sound(key) ==> (res matches Ok(record) && records(
            record,
            key->0@,
            user_id@,
            request_path@,
            request_method@,
            fingerprint@,
            now,
            middleware.ttl(),
            middleware.lock_timeout(),
        )),
{
}

/// By the clock, a request begins at the very instant that the clock showed.
pub proof fn law_request_begins_by_the_clock<S>(
    middleware: IdempotencyMiddleware<S>,
    key: Option<String>,
    user_id: String,
    request_path: String,
    request_method: String,
    request: Option<String>,
    fingerprint: String,
    res: Option<Result<IdempotencyRecord, IdempotencyError>>,
)
    requires
        middleware.valid(),
        call_ensures(
            IdempotencyMiddleware::<S>::process_request,
            (&middleware, key, user_id, request_path, request_method, request),
            res,
        ),
        call_ensures(
            IdempotencyMiddleware::<S>::generate_fingerprint,
            (request,),
            fingerprint,
        ),
    ensures
        !is_sound(key) ==> turns_away(key, res),
        is_sound(key) && res is None ==> exists|now: Timestamp| #[trigger]
            clock_shows(now) && !(ends_in_the_calendar(now, middleware.ttl())
                && ends_in_the_calendar(now, middleware.lock_timeout())),
        is_sound(key) && res is Some ==> (res matches Some(Ok(record)) && clock_shows(
            record.created_at,
        ) && records(
            record,
            key->0@,
            user_id@,
            request_path@,
            request_method@,
            fingerprint@,
            record.created_at,
            middleware.ttl(),
            middleware.lock_timeout(),
        )),
{
    assert forall|t: Timestamp| #[trigger] clock_shows(t) implies is_clock_reading(t) by {
        law_clock_shows_only_readings(t);
    }
}

} // verus!
