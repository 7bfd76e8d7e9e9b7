//! What holds of the calls at the edges: HTTP, gRPC and the client, and of the texts and
//! instants that they and the store read and write.

use vstd::prelude::*;
use crate::axum_integration::{self, idempotency_middleware, Admission};
use crate::client_sdk::{judge_failure, judge_response, ClientError, Verdict};
use crate::grpc_integration::{self, intercept, CallScope, GrpcStatus};
use crate::middleware::is_idempotency_key;
use crate::text::{
    decimal, decimal_value, header_text, hex_text, is_digit, is_visible_ascii, parsed_u64, text_less,
    visible_text,
};
use crate::time::{sum, sum_fits, Duration, Timestamp};
use crate::types::{IdempotencyError, IdempotencyRecord};

verus! {

/// Whether every byte is visible ASCII, from the space to the tilde, or a tab.
pub open spec fn is_readable(bytes: Seq<u8>) -> bool {
    forall|i: int| 0 <= i < bytes.len() ==> #[trigger] bytes[i] == 9 || 32 <= bytes[i] <= 126
}

/// Whether a text has the bytes for its characters, one for one.
pub open spec fn has_bytes(text: Seq<char>, bytes: Seq<u8>) -> bool {
    &&& text.len() == bytes.len()
    &&& forall|i: int| 0 <= i < bytes.len() ==> #[trigger] text[i] as int == bytes[i] as int
}

/// A header value is read exactly where it is readable, and then as the text of its bytes, however
/// long it is.
pub proof fn law_header_is_read_byte_by_byte(bytes: &[u8], res: Option<String>)
    requires
        call_ensures(header_text, (bytes,), res),
    ensures
        res is Some <==> is_readable(bytes@),
        res matches Some(text) ==> has_bytes(text@, bytes@),
{
    lemma_readable(bytes@);
}

proof fn lemma_readable(bytes: Seq<u8>)
    ensures
        visible_text(bytes) is Some <==> is_readable(bytes),
        visible_text(bytes) matches Some(text) ==> has_bytes(text, bytes),
{
    assert forall|i: int| 0 <= i < bytes.len() implies (is_visible_ascii(
        #[trigger] bytes[i],
    ) <==> (bytes[i] == 9 || 32 <= bytes[i] <= 126)) by {}
    if is_readable(bytes) {
        assert forall|i: int| 0 <= i < bytes.len() implies is_visible_ascii(
            #[trigger] bytes[i],
        ) by {}
    }
}

/// Whether `user` is the user that a header names: its text, or the anonymous one where the header
/// is missing or not readable.
pub open spec fn names_user(user: Seq<char>, value: Option<&[u8]>) -> bool {
    if value is Some && is_readable(value->0@) {
        has_bytes(user, value->0@)
    } else {
        user == "anonymous"@
    }
}

/// A POST, PUT or PATCH with a readable key is processed under exactly that key, whatever it is and
/// however long, and for its user; without one it is rejected as a bad request; and all
/// other requests pass.
pub proof fn law_request_is_admitted_under_its_key(
    method: &str,
    key: Option<&[u8]>,
    user: Option<&[u8]>,
    res: Admission,
)
    requires
        call_ensures(idempotency_middleware, (method, key, user), res),
    ensures
        res is PassThrough <==> !(method@ == "POST"@ || method@ == "PUT"@ || method@ == "PATCH"@),
        res is Process <==> !(res is PassThrough) && key is Some && is_readable(key->0@),
        res is Reject <==> !(res is PassThrough) && !(key is Some && is_readable(key->0@)),
        res matches Admission::Reject { status } ==> status == 400,
        res matches Admission::Process { key: under, user_id } ==> has_bytes(under@, key->0@)
            && names_user(user_id@, user),
{
    if key is Some {
        lemma_readable(key->0@);
    }
    if user is Some {
        lemma_readable(user->0@);
    }
}

/// Every key that the middleware accepts is admitted, and comes through as it was sent.
pub proof fn law_sound_key_is_admitted(
    method: &str,
    text: Seq<char>,
    bytes: &[u8],
    user: Option<&[u8]>,
    res: Admission,
)
    requires
        method@ == "POST"@ || method@ == "PUT"@ || method@ == "PATCH"@,
        is_idempotency_key(text),
        has_bytes(text, bytes@),
        is_readable(bytes@),
        call_ensures(idempotency_middleware, (method, Some(bytes), user), res),
    ensures
        res matches Admission::Process { key, user_id } && key@ == text,
{
    law_request_is_admitted_under_its_key(method, Some(bytes), user, res);
    let key = res->Process_key@;
    assert forall|i: int| 0 <= i < text.len() implies key[i] == text[i] by {
        assert(key[i] as int == bytes@[i] as int && text[i] as int == bytes@[i] as int);
    }
    assert(key =~= text);
}

/// A unary call is recorded under exactly its key and for its user, and turned away only where it
/// has no readable key.
pub proof fn law_call_is_recorded_under_its_key(
    key: Option<&[u8]>,
    user: Option<&[u8]>,
    res: Result<CallScope, GrpcStatus>,
)
    requires
        call_ensures(intercept, (key, user), res),
    ensures
        res is Ok <==> key is Some && is_readable(key->0@),
        res matches Ok(scope) ==> has_bytes(scope.key@, key->0@) && names_user(scope.user_id@, user)
            && scope.method@ == "UNARY"@,
        res matches Err(status) ==> status.code is InvalidArgument && status.message@
            == "Missing idempotency-key in metadata"@,
{
    if key is Some {
        lemma_readable(key->0@);
    }
    if user is Some {
        lemma_readable(user->0@);
    }
}

/// Over HTTP a request that is in progress or in conflict gets 409, a reused key 422, a missing or
/// malformed key 400, and every failure of the server 500.
pub proof fn law_http_status_of_an_error(e: IdempotencyError, res: u16)
    requires
        call_ensures(axum_integration::status_of_error, (&e,), res),
    ensures
        res == 409 <==> (e is RequestInProgress || e is ConcurrentRequestConflict),
        res == 422 <==> e is KeyReusedWithDifferentRequest,
        res == 400 <==> (e is MissingIdempotencyKey || e is InvalidKeyFormat),
        res == 500 <==> (e is StorageError || e is TransactionFailed || e is HandlerFailed),
{
}

/// Whether `text` is `n` in decimal: digits only, no leading zero, and the value of the digits,
/// each worth ten times the next, is `n`.
pub open spec fn is_decimal_of(text: Seq<char>, n: nat) -> bool
    decreases text.len(),
{
    if text.len() == 0 {
        false
    } else if text.len() == 1 {
        48 <= text[0] as u32 <= 57 && n == text[0] as u32 - 48
    } else {
        &&& text[0] != '0'
        &&& 48 <= text.last() as u32 <= 57
        &&& n >= 10
        &&& n % 10 == text.last() as u32 - 48
        &&& is_decimal_of(text.drop_last(), n / 10)
    }
}

proof fn lemma_decimal(n: nat)
    ensures
        is_decimal_of(decimal(n), n),
        n > 0 ==> decimal(n)[0] != '0',
    decreases n,
{
    if n >= 10 {
        lemma_decimal(n / 10);
        let text = decimal(n);
        assert(text.drop_last() =~= decimal(n / 10));
        assert(decimal(n / 10).len() > 0);
        assert(text[0] == decimal(n / 10)[0]);
    }
}

/// The message of an error is its sentence, with its own text or number in it.
pub proof fn law_message_tells_the_error(e: IdempotencyError, res: String)
    requires
        call_ensures(IdempotencyError::message, (&e,), res),
    ensures
        match e {
            IdempotencyError::RequestInProgress { retry_after } => exists|number: Seq<char>|
                #[trigger] is_decimal_of(number, retry_after as nat) && res@
                    == "Request in progress (retry after "@ + number + " seconds)"@,
            IdempotencyError::KeyReusedWithDifferentRequest => res@
                == "Idempotency key reused with different request"@,
            IdempotencyError::MissingIdempotencyKey => res@ == "Missing idempotency key"@,
            IdempotencyError::StorageError(text) => res@ == "Storage error: "@ + text@,
            IdempotencyError::InvalidKeyFormat => res@ == "Invalid idempotency key format"@,
            IdempotencyError::TransactionFailed(text) => res@ == "Transaction failed: "@ + text@,
            IdempotencyError::ConcurrentRequestConflict => res@ == "Concurrent request conflict"@,
            IdempotencyError::HandlerFailed(text) => res@ == "Handler execution failed: "@ + text@,
        },
{
    if let IdempotencyError::RequestInProgress { retry_after } = e {
        lemma_decimal(retry_after as nat);
    }
}

/// An error may be tried again exactly where storage, a transaction or the handler failed.
pub proof fn law_retryable_errors(e: IdempotencyError, res: bool)
    requires
        call_ensures(IdempotencyError::is_retryable, (&e,), res),
    ensures
        res <==> (e is StorageError || e is TransactionFailed || e is HandlerFailed),
{
}

/// Over gRPC a request in progress is aborted with the seconds to wait, a reused key is a failed
/// precondition, and all else is internal, told by the error's own message.
pub proof fn law_grpc_status_of_an_error(e: IdempotencyError, message: String, res: GrpcStatus)
    requires
        call_ensures(IdempotencyError::message, (&e,), message),
        call_ensures(grpc_integration::status_of_error, (&e,), res),
    ensures
        res.code is Aborted <==> e is RequestInProgress,
        res.code is FailedPrecondition <==> e is KeyReusedWithDifferentRequest,
        res.code is Internal <==> !(e is RequestInProgress || e is KeyReusedWithDifferentRequest),
        e matches IdempotencyError::RequestInProgress { retry_after } ==> (exists|
            number: Seq<char>,
        | #[trigger]
            is_decimal_of(number, retry_after as nat) && res.message@
                == "Request in progress, retry after "@ + number + " seconds"@),
        e is KeyReusedWithDifferentRequest ==> res.message@
            == "Idempotency key reused with different request"@,
        res.code is Internal ==> res.message@ == message@,
{
    if let IdempotencyError::RequestInProgress { retry_after } = e {
        lemma_decimal(retry_after as nat);
    }
}

/// The value of a run of digits: nothing is worth 0, and a digit at the end comes to ten times what
/// stands before it.
pub proof fn law_value_of_digits(digits: Seq<char>, digit: char)
    requires
        48 <= digit as u32 <= 57,
    ensures
        decimal_value(Seq::<char>::empty()) == 0,
        decimal_value(digits.push(digit)) == 10 * decimal_value(digits) + (digit as u32 - 48),
{
    assert(digits.push(digit).drop_last() =~= digits);
}

/// Whether `text` has nothing but digits, and some.
pub open spec fn is_number(text: Seq<char>) -> bool {
    text.len() > 0 && forall|i: int|
        0 <= i < text.len() ==> 48 <= #[trigger] text[i] as u32 <= 57
}

/// A number is read with or without a plus sign, as long as it fits, and nothing else is read.
pub proof fn law_numbers_are_read(text: Seq<char>)
    ensures
        is_number(text) && decimal_value(text) <= u64::MAX ==> parsed_u64(text) == Some(
            decimal_value(text) as u64,
        ),
        is_number(text) && decimal_value(text) > u64::MAX ==> parsed_u64(text) is None,
        parsed_u64(seq!['+'] + text) == (if is_number(text) {
            parsed_u64(text)
        } else {
            None
        }),
        !is_number(text) && (text.len() == 0 || text[0] != '+') ==> parsed_u64(text) is None,
{
    let signed = seq!['+'] + text;
    assert(signed.skip(1) =~= text);
    assert forall|t: Seq<char>|
        (t.len() > 0 && forall|i: int|
            0 <= i < t.len() ==> is_digit(#[trigger] t[i])) == #[trigger] is_number(
            t,
        ) by {
        assert(is_number(t) ==> forall|i: int|
            0 <= i < t.len() ==> is_digit(#[trigger] t[i]));
    }
    assert(is_number(text) || !is_number(text));
    if is_number(text) {
        assert(text[0] != '+');
    }
}

/// Two hundreds are successes, 429 is waited out, other four hundreds are final, and all else is
/// tried again.
pub proof fn law_response_is_judged_by_its_status(
    status: u16,
    retry_after: Option<&[u8]>,
    res: Verdict,
)
    requires
        call_ensures(judge_response, (status, retry_after), res),
    ensures
        res is Success <==> 200 <= status < 300,
        res is RetryAfter <==> status == 429,
        res is GiveUp <==> 400 <= status < 500 && status != 429,
        res is Retry <==> !(200 <= status < 300 || 400 <= status < 500),
        res matches Verdict::GiveUp(e) ==> e == ClientError::ClientError(status),
        res matches Verdict::Retry(e) ==> e is ServerError,
{
}

/// One is waited for as many seconds as the header says, and for one second where it is missing or no
/// number.
pub proof fn law_wait_is_what_the_header_says(
    value: Option<&[u8]>,
    text: Seq<char>,
    res: Verdict,
    none: Verdict,
)
    requires
        value matches Some(bytes) ==> has_bytes(text, bytes@),
        call_ensures(judge_response, (429u16, value), res),
        call_ensures(judge_response, (429u16, None), none),
    ensures
        none == (Verdict::RetryAfter { seconds: 1 }),
        value matches Some(bytes) && !is_readable(bytes@) ==> res == (Verdict::RetryAfter {
            seconds: 1,
        }),
        value matches Some(bytes) && is_readable(bytes@) ==> res == (Verdict::RetryAfter {
            seconds: match parsed_u64(text) {
                Some(seconds) => seconds,
                None => 1,
            },
        }),
{
    if let Some(bytes) = value {
        lemma_readable(bytes@);
        if is_readable(bytes@) {
            let read = visible_text(bytes@)->0;
            assert forall|i: int| 0 <= i < text.len() implies read[i] == text[i] by {
                assert(read[i] as int == bytes@[i] as int && text[i] as int == bytes@[i] as int);
            }
            assert(read =~= text);
        }
    }
}

/// A call that came to no response is tried again.
pub proof fn law_failure_is_tried_again(cause: String, res: Verdict)
    requires
        call_ensures(judge_failure, (cause,), res),
    ensures
        res matches Verdict::Retry(e) && e matches ClientError::Transport(text) && text@ == cause@,
{
}

/// Bytes are written with two hexadecimal digits each, the upper half first.
pub proof fn law_bytes_in_hexadecimal(bytes: &[u8], res: String)
    requires
        call_ensures(hex_text, (bytes,), res),
    ensures
        res@.len() == 2 * bytes@.len(),
        forall|i: int|
            0 <= i < bytes@.len() ==> {
                let byte = #[trigger] bytes@[i] as int;
                &&& res@[2 * i] == "0123456789abcdef"@[byte / 16]
                &&& res@[2 * i + 1] == "0123456789abcdef"@[byte % 16]
            },
{
    reveal_strlit("0123456789abcdef");
    assert forall|i: int| 0 <= i < bytes@.len() implies {
        let byte = #[trigger] bytes@[i] as int;
        &&& res@[2 * i] == "0123456789abcdef"@[byte / 16]
        &&& res@[2 * i + 1] == "0123456789abcdef"@[byte % 16]
    } by {
        assert((2 * i) / 2 == i && (2 * i + 1) / 2 == i && (2 * i) % 2 == 0 && (2 * i + 1) % 2
            == 1);
    }
}

/// The calendar runs from the year -262143 to the year 262142; a leap second comes only after a
/// second 59.
pub proof fn law_calendar(secs: i64, nanos: u32, res: Option<Timestamp>)
    requires
        call_ensures(Timestamp::new, (secs, nanos), res),
    ensures
        res is Some <==> -8_334_601_228_800 <= secs <= 8_210_266_876_799 && (nanos < 1_000_000_000
            || (nanos < 2_000_000_000 && (secs + 1) % 60 == 0)),
        res matches Some(t) ==> t.secs == secs && t.nanos == nanos,
{
}

/// What is said of an instant and of a span is said of their seconds and nanoseconds.
pub proof fn law_instants_are_seconds_and_nanoseconds(t: Timestamp, d: Duration)
    ensures
        t.is_leap() <==> t.nanos >= 1_000_000_000,
        t.total_nanos() == t.secs * 1_000_000_000 + t.nanos,
        d.total_nanos() == d.secs * 1_000_000_000 + d.nanos,
        t.has_four_digit_year() <==> -62_167_219_200 <= t.secs <= 253_402_300_799,
        d.valid() <==> d.nanos < 1_000_000_000 && -9_223_372_036_854_775_807 * 1_000_000
            <= d.secs * 1_000_000_000 + d.nanos <= 9_223_372_036_854_775_807 * 1_000_000,
{
}

/// A record is in the calendar where each of its instants is, and its lock, if it has one.
pub proof fn law_record_is_in_the_calendar(
    record: IdempotencyRecord,
    created: bool,
    expires: bool,
    until: Timestamp,
    locked: bool,
    res: bool,
)
    requires
        call_ensures(Timestamp::is_valid, (&record.created_at,), created),
        call_ensures(Timestamp::is_valid, (&record.expires_at,), expires),
        record.locked_until is Some ==> record.locked_until == Some(until),
        call_ensures(Timestamp::is_valid, (&until,), locked),
        call_ensures(IdempotencyRecord::is_valid, (&record,), res),
    ensures
        res <==> created && expires && (record.locked_until is None || locked),
        locked <==> -8_334_601_228_800 <= until.secs <= 8_210_266_876_799 && (until.nanos
            < 1_000_000_000 || (until.nanos < 2_000_000_000 && (until.secs + 1) % 60 == 0)),
{
}

/// An instant comes after another in one direction at most, in one at least unless they are the
/// same, and away from leap seconds exactly where more nanoseconds have passed.
pub proof fn law_instants_are_ordered(a: Timestamp, b: Timestamp, ab: bool, ba: bool)
    requires
        call_ensures(Timestamp::is_after, (&a, &b), ab),
        call_ensures(Timestamp::is_after, (&b, &a), ba),
    ensures
        !(ab && ba),
        ab || ba || a == b,
        a.secs > b.secs ==> ab,
        a.nanos < 1_000_000_000 && b.nanos < 1_000_000_000 ==> (ab <==> a.secs * 1_000_000_000
            + a.nanos > b.secs * 1_000_000_000 + b.nanos),
{
}

/// Moving an instant on by a span adds up, and stays in the calendar or is refused.
pub proof fn law_sums_add_up(t: Timestamp, d: Duration)
    requires
        t.valid(),
        !t.is_leap(),
        d.valid(),
    ensures
        sum_fits(t, d) ==> sum(t, d).valid() && sum(t, d).nanos < 1_000_000_000 && sum(t, d).secs
            * 1_000_000_000 + sum(t, d).nanos == t.secs * 1_000_000_000 + t.nanos + d.secs
            * 1_000_000_000 + d.nanos,
        sum_fits(t, d) <==> -8_334_601_228_800 * 1_000_000_000 <= t.secs * 1_000_000_000 + t.nanos
            + d.secs * 1_000_000_000 + d.nanos < 8_210_266_876_800 * 1_000_000_000,
{
}

/// Texts are ordered by their first difference, and a text comes after what it begins with.
pub proof fn law_texts_are_ordered_by_their_first_difference(
    start: Seq<char>,
    a: char,
    after_a: Seq<char>,
    b: char,
    after_b: Seq<char>,
)
    requires
        (a as u32) < (b as u32),
    ensures
        text_less(start + seq![a] + after_a, start + seq![b] + after_b),
        !text_less(start + seq![b] + after_b, start + seq![a] + after_a),
        text_less(start, start + seq![a] + after_a),
        !text_less(start + seq![a] + after_a, start),
        !text_less(start, start),
    decreases start.len(),
{
    let less = start + seq![a] + after_a;
    let more = start + seq![b] + after_b;
    if start.len() > 0 {
        let rest = start.skip(1);
        law_texts_are_ordered_by_their_first_difference(rest, a, after_a, b, after_b);
        assert(less.skip(1) =~= rest + seq![a] + after_a);
        assert(more.skip(1) =~= rest + seq![b] + after_b);
        assert(less[0] == start[0] && more[0] == start[0]);
    } else {
        assert(less[0] == a && more[0] == b);
    }
}

} // verus!
