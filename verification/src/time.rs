//! Instants and spans of time, and the calendar work that `chrono` does on them.

use vstd::prelude::*;
use crate::text::text_less;

verus! {

/// The first second that an instant can name: 1 January of the year -262143.
pub const MIN_SECONDS: i64 = -8_334_601_228_800;

/// The last second that an instant can name: 31 December of the year 262142.
pub const MAX_SECONDS: i64 = 8_210_266_876_799;

/// The first second of the year 0.
pub const FIRST_FOUR_DIGIT_SECOND: i64 = -62_167_219_200;

/// The last second of the year 9999.
pub const LAST_FOUR_DIGIT_SECOND: i64 = 253_402_300_799;

/// The longest span, in milliseconds, in either direction.
pub const MAX_SPAN_MILLIS: i64 = 9_223_372_036_854_775_807;

/// An instant in UTC: whole seconds since the start of 1970, and the
/// nanoseconds past that second. A leap second is written as the second before
/// it with a billion or more nanoseconds.
#[derive(Clone, Copy, Debug, PartialEq, Eq, Structural)]
pub struct Timestamp {
    pub secs: i64,
    pub nanos: u32,
}

impl Timestamp {
    /// An instant that the calendar has.
    pub open spec fn valid(self) -> bool {
        &&& MIN_SECONDS <= self.secs <= MAX_SECONDS
        &&& self.nanos < 2_000_000_000
        &&& self.is_leap() ==> self.secs as int % 60 == 59
    }

    /// Whether the instant lies in a leap second.
    pub open spec fn is_leap(self) -> bool {
        self.nanos >= 1_000_000_000
    }

    /// Nanoseconds since the start of 1970.
    pub open spec fn total_nanos(self) -> int {
        self.secs * 1_000_000_000 + self.nanos
    }

    /// Whether the year has four digits and no sign, as RFC 3339 asks.
    pub open spec fn has_four_digit_year(self) -> bool {
        FIRST_FOUR_DIGIT_SECOND <= self.secs <= LAST_FOUR_DIGIT_SECOND
    }

    /// Whether `self` comes strictly before `other`.
    pub open spec fn before(self, other: Timestamp) -> bool {
        self.secs < other.secs || (self.secs == other.secs && self.nanos < other.nanos)
    }

    /// Makes an instant, or `None` where the calendar has none such.
    pub fn new(secs: i64, nanos: u32) -> (res: Option<Timestamp>)
        ensures
            res is Some <==> (Timestamp { secs, nanos }).valid(),
            res matches Some(t) ==> t == (Timestamp { secs, nanos }),
    {
        if secs < MIN_SECONDS || secs > MAX_SECONDS || nanos >= 2_000_000_000 {
            return None;
        }
        if nanos >= 1_000_000_000 {
            // `MIN_SECONDS` is a multiple of 60, so the distance from it has the same remainder.
            let from_start: u64 = (secs - MIN_SECONDS) as u64;
            if from_start % 60 != 59 {
                return None;
            }
        }
        Some(Timestamp { secs, nanos })
    }

    /// Whether the calendar has this instant.
    pub fn is_valid(&self) -> (res: bool)
        ensures
            res == self.valid(),
    {
        Timestamp::new(self.secs, self.nanos).is_some()
    }

    /// Whether `self` comes strictly after `other`.
    pub fn is_after(&self, other: &Timestamp) -> (res: bool)
        ensures
            res == other.before(*self),
    {
        self.secs > other.secs || (self.secs == other.secs && self.nanos > other.nanos)
    }
}

/// A span of time, forwards or backwards: `secs` rounded down, and the
/// nanoseconds past it.
#[derive(Clone, Copy, Debug, PartialEq, Eq, Structural)]
pub struct Duration {
    pub secs: i64,
    pub nanos: u32,
}

impl Duration {
    /// The whole span in nanoseconds.
    pub open spec fn total_nanos(self) -> int {
        self.secs * 1_000_000_000 + self.nanos
    }

    /// A span of at most `MAX_SPAN_MILLIS` milliseconds either way.
    pub open spec fn valid(self) -> bool {
        &&& self.nanos < 1_000_000_000
        &&& -(MAX_SPAN_MILLIS * 1_000_000) <= self.total_nanos() <= MAX_SPAN_MILLIS * 1_000_000
    }
}

/// Whether `t` moved on by `d` is still an instant of the calendar.
pub open spec fn sum_fits(t: Timestamp, d: Duration) -> bool {
    MIN_SECONDS * 1_000_000_000 <= t.total_nanos() + d.total_nanos()
        < (MAX_SECONDS + 1) * 1_000_000_000
}

/// The instant that lies `d` after `t`.
pub open spec fn sum(t: Timestamp, d: Duration) -> Timestamp {
    let total = t.total_nanos() + d.total_nanos();
    Timestamp { secs: (total / 1_000_000_000) as i64, nanos: (total % 1_000_000_000) as u32 }
}

/// Whether the clock can show this instant: it lies in 1970 or later and in no leap second.
pub open spec fn is_clock_reading(t: Timestamp) -> bool {
    t.valid() && !t.is_leap() && 0 <= t.secs
}

/// The text that `DateTime<Utc>::to_rfc3339` gives for an instant.
pub uninterp spec fn rfc3339_text(secs: i64, nanos: u32) -> Seq<char>;

/// What `DateTime::parse_from_rfc3339` reads in a text: the instant in UTC, or
/// the message of its error.
pub uninterp spec fn rfc3339_instant(text: Seq<char>) -> Result<(i64, u32), Seq<char>>;

/// The seconds by which a leap second changes the time between two instants. It goes by
/// the time of day alone: the leap second of the instant with the smaller one counts as
/// passed.
pub open spec fn leap_correction(later: Timestamp, earlier: Timestamp) -> int {
    let later_time = later.secs as int % 86_400;
    let earlier_time = earlier.secs as int % 86_400;
    if later_time > earlier_time && earlier.is_leap() {
        1
    } else if later_time < earlier_time && later.is_leap() {
        -1
    } else {
        0
    }
}

/// The whole seconds from one instant to another, rounded towards zero.
pub open spec fn whole_seconds_between(later: Timestamp, earlier: Timestamp) -> int {
    let nanos = later.total_nanos() - earlier.total_nanos() + leap_correction(later, earlier)
        * 1_000_000_000;
    if nanos >= 0 {
        nanos / 1_000_000_000
    } else {
        -(-nanos / 1_000_000_000)
    }
}

/// Whether `text` is the RFC 3339 text of `t`. Where the year has four digits,
/// the text reads back as `t`, and texts of such instants are ordered as the
/// instants are.
pub open spec fn renders(text: Seq<char>, t: Timestamp) -> bool {
    &&& text == rfc3339_text(t.secs, t.nanos)
    &&& t.has_four_digit_year() ==> {
        &&& rfc3339_instant(text) == Ok::<(i64, u32), Seq<char>>((t.secs, t.nanos))
        &&& forall|o: Timestamp|
            o.valid() && o.has_four_digit_year() ==> (text_less(
                #[trigger] rfc3339_text(o.secs, o.nanos),
                text,
            ) <==> o.before(t))
    }
}

/// Reads the clock with `chrono::Utc::now`. It never gives a leap second, nor an
/// instant before 1970; it panics where the machine's clock stands outside the
/// years that `chrono` has, or before 1970.
#[verifier::external_body]
pub(crate) fn utc_now() -> (res: Timestamp)
    ensures
        is_clock_reading(res),
{
    let now = chrono::Utc::now();
    Timestamp { secs: now.timestamp(), nanos: now.timestamp_subsec_nanos() }
}

/// Whether the clock, when it was read, gave this instant. Nothing but a reading of
/// the clock shows this of an instant: not that it could be one, nor that it is near one.
pub closed spec fn clock_shows(t: Timestamp) -> bool {
    call_ensures(utc_now, (), t)
}

/// The clock shows what was read from it.
pub(crate) broadcast proof fn lemma_reading_is_shown(t: Timestamp)
    requires
        #[trigger] call_ensures(utc_now, (), t),
    ensures
        clock_shows(t),
{
}

/// What the clock shows is what a call of `utc_now` gave, and nothing else.
pub(crate) proof fn law_clock_shows_only_readings(t: Timestamp)
    ensures
        clock_shows(t) <==> call_ensures(utc_now, (), t),
        clock_shows(t) ==> is_clock_reading(t),
{
}

/// `DateTime<Utc>::to_rfc3339`. It writes the date, the time with no, three, six
/// or nine digits after the point, and `+00:00`; a leap second is written as
/// second 60. So the text keeps every nanosecond, `parse_from_rfc3339` reads the
/// same instant back where the year has four digits, and two such texts compare
/// as their instants do.
#[verifier::external_body]
pub(crate) fn to_rfc3339(t: &Timestamp) -> (res: String)
    requires
        t.valid(),
    ensures
        res@ == rfc3339_text(t.secs, t.nanos),
        renders(res@, *t),
{
    chrono::DateTime::from_timestamp(t.secs, t.nanos).unwrap().to_rfc3339()
}

/// `DateTime::parse_from_rfc3339`, the instant then taken in UTC. What it reads
/// is an instant of the calendar; where it fails, its error is given as text.
#[verifier::external_body]
pub(crate) fn parse_rfc3339(text: &str) -> (res: Result<Timestamp, String>)
    ensures
        match res {
            Ok(t) => t.valid() && rfc3339_instant(text@) == Ok::<(i64, u32), Seq<char>>(
                (t.secs, t.nanos),
            ),
            Err(message) => rfc3339_instant(text@) == Err::<(i64, u32), Seq<char>>(message@),
        },
{
    match chrono::DateTime::parse_from_rfc3339(text) {
        Ok(read) => {
            let utc = read.with_timezone(&chrono::Utc);
            Ok(Timestamp { secs: utc.timestamp(), nanos: utc.timestamp_subsec_nanos() })
        },
        Err(e) => Err(e.to_string()),
    }
}

/// `DateTime<Utc>::checked_add_signed`, from an instant that is no leap second:
/// plain addition, and `None` where the calendar has no such instant.
#[verifier::external_body]
pub(crate) fn checked_add(t: &Timestamp, d: &Duration) -> (res: Option<Timestamp>)
    requires
        t.valid(),
        !t.is_leap(),
        d.valid(),
    ensures
        res is Some <==> sum_fits(*t, *d),
        res matches Some(moved) ==> moved == sum(*t, *d),
{
    let moved = chrono::DateTime::from_timestamp(t.secs, t.nanos)
        .unwrap()
        .checked_add_signed(chrono::TimeDelta::new(d.secs, d.nanos).unwrap())?;
    Some(Timestamp { secs: moved.timestamp(), nanos: moved.timestamp_subsec_nanos() })
}

/// `DateTime<Utc>::signed_duration_since`, in whole seconds as
/// `TimeDelta::num_seconds` gives them: the difference, a leap second being
/// counted by the times of day, rounded towards zero.
#[verifier::external_body]
pub(crate) fn seconds_between(later: &Timestamp, earlier: &Timestamp) -> (res: i64)
    requires
        later.valid(),
        earlier.valid(),
    ensures
        res == whole_seconds_between(*later, *earlier),
{
    let earlier = chrono::DateTime::from_timestamp(earlier.secs, earlier.nanos).unwrap();
    let later = chrono::DateTime::from_timestamp(later.secs, later.nanos).unwrap();
    later.signed_duration_since(earlier).num_seconds()
}

} // verus!
