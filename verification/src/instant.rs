//! Instants on the UTC time line, their canonical text and the due-today
//! window.

use chrono::{DateTime, Datelike, ParseError, TimeZone, Utc};
use std::fmt::Write;
use vstd::prelude::*;

verus! {

/// Seconds in one UTC day; the time line used here has no leap seconds.
pub const SECONDS_PER_DAY: i64 = 86_400;

/// An instant: whole seconds since 1970-01-01T00:00:00Z and the nanoseconds
/// past that second.
#[derive(Clone, Copy, Debug, PartialEq, Eq, Structural)]
pub struct Timestamp {
    pub secs: i64,
    pub nanos: u32,
}

/// A day of the proleptic Gregorian calendar, by its year, its month from 1
/// and its day of the month from 1. Not every triple of numbers is a day.
#[derive(Clone, Copy, Debug, PartialEq, Eq, Structural)]
pub struct CalendarDate {
    pub year: i32,
    pub month: u32,
    pub day: u32,
}

/// `chrono::ParseError`, the reason why chrono rejected a text. Nothing is
/// read from it.
#[verifier::external_type_specification]
#[verifier::external_body]
pub struct ExParseError(ParseError);

/// The RFC 3339 text that chrono writes for the instant `secs`, `nanos`, or
/// `None` where chrono has no date for that instant.
pub uninterp spec fn rfc3339_text(secs: int, nanos: int) -> Option<Seq<char>>;

/// The instant that chrono reads from `text` as an RFC 3339 date and time, or
/// `None` where chrono rejects the text.
pub uninterp spec fn rfc3339_instant(text: Seq<char>) -> Option<(int, int)>;

/// The instant, as seconds and nanoseconds, at which chrono puts the given
/// time of the given day in UTC, or `None` where chrono has no such day or
/// no such time of day.
pub uninterp spec fn civil_instant(
    year: int,
    month: int,
    day: int,
    hour: int,
    minute: int,
    second: int,
) -> Option<(int, int)>;

/// The year, month and day of the UTC day on which chrono puts the instant
/// `secs`, `nanos`, or `None` where chrono has no date for that instant.
pub uninterp spec fn calendar_day(secs: int, nanos: int) -> Option<(int, int, int)>;

/// The text that chrono writes for the instant `secs`, `nanos` under the
/// format `pattern`, or `None` where chrono has no date for that instant or
/// rejects the pattern.
pub uninterp spec fn formatted(secs: int, nanos: int, pattern: Seq<char>) -> Option<Seq<char>>;

/// An optional instant as a pair of numbers.
pub open spec fn instant_pair(at: Option<Timestamp>) -> Option<(int, int)> {
    match at {
        Some(at) => Some((at.secs as int, at.nanos as int)),
        None => None,
    }
}

/// An optional day as a triple of numbers.
pub open spec fn date_triple(date: Option<CalendarDate>) -> Option<(int, int, int)> {
    match date {
        Some(date) => Some((date.year as int, date.month as int, date.day as int)),
        None => None,
    }
}

/// The instant at which the given time of the given day lies in UTC.
pub open spec fn instant_on(date: CalendarDate, hour: u32, minute: u32, second: u32) -> Option<
    Timestamp,
> {
    match civil_instant(
        date.year as int,
        date.month as int,
        date.day as int,
        hour as int,
        minute as int,
        second as int,
    ) {
        Some((secs, nanos)) => if i64::MIN <= secs <= i64::MAX && 0 <= nanos <= u32::MAX {
            Some(Timestamp { secs: secs as i64, nanos: nanos as u32 })
        } else {
            None
        },
        None => None,
    }
}

/// The UTC day on which an instant lies.
pub open spec fn date_of(at: Timestamp) -> Option<CalendarDate> {
    match calendar_day(at.secs as int, at.nanos as int) {
        Some((year, month, day)) => if i32::MIN <= year <= i32::MAX && 0 <= month <= u32::MAX && 0
            <= day <= u32::MAX {
            Some(CalendarDate { year: year as i32, month: month as u32, day: day as u32 })
        } else {
            None
        },
        None => None,
    }
}

/// The hour of the UTC day, from 0 to 23, in which the second `at` lies.
pub open spec fn hour_of_day(at: int) -> int {
    (at % 86_400) / 3_600
}

/// The minute of the hour, from 0 to 59, in which the second `at` lies.
pub open spec fn minute_of_hour(at: int) -> int {
    (at % 3_600) / 60
}

/// The start of the UTC day that holds the second `at`.
pub open spec fn day_start(at: int) -> int {
    at - at % 86_400
}

/// Whether the second `at` lies in the UTC day that holds `now`: at or after
/// the start of that day and before the start of the next.
pub open spec fn due_on_day_of(at: int, now: int) -> bool {
    day_start(now) <= at < day_start(now) + 86_400
}

/// The first instant of the UTC day that holds `at`, or `None` where that
/// instant lies before the earliest second that can be counted.
pub open spec fn first_instant_of_day(at: Timestamp) -> Option<Timestamp> {
    if day_start(at.secs as int) >= i64::MIN {
        Some(Timestamp { secs: day_start(at.secs as int) as i64, nanos: 0 })
    } else {
        None
    }
}

/// The first instant of the UTC day after the one that holds `at`, or `None`
/// where that instant cannot be counted.
pub open spec fn first_instant_of_next_day(at: Timestamp) -> Option<Timestamp> {
    if i64::MIN <= day_start(at.secs as int) + 86_400 <= i64::MAX {
        Some(Timestamp { secs: (day_start(at.secs as int) + 86_400) as i64, nanos: 0 })
    } else {
        None
    }
}

/// The text under which an instant is stored: what chrono writes for it,
/// provided chrono reads the same instant back from that text.
pub open spec fn canonical_text(at: Timestamp) -> Option<Seq<char>> {
    match rfc3339_text(at.secs as int, at.nanos as int) {
        Some(text) => if rfc3339_instant(text) == Some((at.secs as int, at.nanos as int)) {
            Some(text)
        } else {
            None
        },
        None => None,
    }
}

/// The instant that a stored text stands for.
pub open spec fn instant_of_text(text: Seq<char>) -> Option<Timestamp> {
    match rfc3339_instant(text) {
        Some((secs, nanos)) => if i64::MIN <= secs <= i64::MAX && 0 <= nanos <= u32::MAX {
            Some(Timestamp { secs: secs as i64, nanos: nanos as u32 })
        } else {
            None
        },
        None => None,
    }
}

/// The view of an optional string.
pub open spec fn text_view(text: Option<String>) -> Option<Seq<char>> {
    match text {
        Some(s) => Some(s@),
        None => None,
    }
}

/// Calls `chrono::DateTime::from_timestamp` and, on the date it gives,
/// `chrono::DateTime::to_rfc3339`. The text depends on the two numbers alone,
/// so it is named [`rfc3339_text`]; nothing is claimed of what it holds.
#[verifier::external_body]
fn write_rfc3339(at: Timestamp) -> (text: Option<String>)
    ensures
        text_view(text) == rfc3339_text(at.secs as int, at.nanos as int),
{
    match DateTime::from_timestamp(at.secs, at.nanos) {
        Some(date) => Some(date.to_rfc3339()),
        None => None,
    }
}

/// Calls `chrono::DateTime::parse_from_rfc3339` and converts the date to UTC
/// seconds and nanoseconds with `timestamp` and `timestamp_subsec_nanos`. The
/// outcome depends on the text alone, so it is named [`rfc3339_instant`];
/// chrono's error is handed on as it is.
#[verifier::external_body]
fn read_rfc3339(text: &str) -> (parsed: Result<Timestamp, ParseError>)
    ensures
        parsed is Ok <==> rfc3339_instant(text@) is Some,
        parsed matches Ok(at) ==> rfc3339_instant(text@) == Some((at.secs as int, at.nanos as int)),
{
    match DateTime::parse_from_rfc3339(text) {
        Ok(date) => {
            let utc = date.with_timezone(&Utc);
            Ok(Timestamp { secs: utc.timestamp(), nanos: utc.timestamp_subsec_nanos() })
        },
        Err(error) => Err(error),
    }
}

/// Calls `chrono::Utc::now` and converts the date to seconds and nanoseconds.
/// The clock decides the result, so nothing is promised of it. chrono itself
/// expects a system clock that is not set before 1970.
#[verifier::external_body]
pub(crate) fn read_clock() -> Timestamp {
    let now = Utc::now();
    Timestamp { secs: now.timestamp(), nanos: now.timestamp_subsec_nanos() }
}

/// Calls `chrono::TimeZone::with_ymd_and_hms` on `Utc` and converts the one
/// date that it gives to seconds and nanoseconds. The outcome depends on the
/// six numbers alone, so it is named [`civil_instant`].
#[verifier::external_body]
pub(crate) fn utc_from_civil(date: CalendarDate, hour: u32, minute: u32, second: u32) -> (at: Option<
    Timestamp,
>)
    ensures
        instant_pair(at) == civil_instant(
            date.year as int,
            date.month as int,
            date.day as int,
            hour as int,
            minute as int,
            second as int,
        ),
{
    match Utc.with_ymd_and_hms(date.year, date.month, date.day, hour, minute, second).single() {
        Some(utc) => Some(Timestamp { secs: utc.timestamp(), nanos: utc.timestamp_subsec_nanos() }),
        None => None,
    }
}

/// Calls `chrono::DateTime::from_timestamp` and `chrono::DateTime::date_naive`
/// and hands out the year, month and day of that date. The outcome depends
/// on the two numbers alone, so it is named [`calendar_day`].
#[verifier::external_body]
pub(crate) fn utc_calendar_date(at: Timestamp) -> (date: Option<CalendarDate>)
    ensures
        date_triple(date) == calendar_day(at.secs as int, at.nanos as int),
{
    match DateTime::from_timestamp(at.secs, at.nanos) {
        Some(utc) => {
            let day = utc.date_naive();
            Some(CalendarDate { year: day.year(), month: day.month(), day: day.day() })
        },
        None => None,
    }
}

/// Calls `chrono::DateTime::from_timestamp` and writes what
/// `chrono::DateTime::format` gives for the pattern. The text depends on the
/// instant and the pattern alone, so it is named [`formatted`].
#[verifier::external_body]
pub(crate) fn write_formatted(at: Timestamp, pattern: &str) -> (text: Option<String>)
    ensures
        text_view(text) == formatted(at.secs as int, at.nanos as int, pattern@),
{
    match DateTime::from_timestamp(at.secs, at.nanos) {
        Some(utc) => {
            let mut text = String::new();
            match write!(text, "{}", utc.format(pattern)) {
                Ok(()) => Some(text),
                Err(_) => None,
            }
        },
        None => None,
    }
}

impl Timestamp {
    /// The instant `secs` seconds and `nanos` nanoseconds after the epoch.
    pub fn new(secs: i64, nanos: u32) -> (at: Timestamp)
        ensures
            at.secs == secs,
            at.nanos == nanos,
    {
        Timestamp { secs, nanos }
    }

    /// The hour of the UTC day in which this instant lies, from 0 to 23.
    pub fn hour(&self) -> (hour: u32)
        ensures
            hour == hour_of_day(self.secs as int),
            hour < 24,
    {
        let past: i64 = second_of_day(self.secs);
        (past / 3_600) as u32
    }

    /// The minute of the hour in which this instant lies, from 0 to 59.
    pub fn minute(&self) -> (minute: u32)
        ensures
            minute == minute_of_hour(self.secs as int),
            minute < 60,
    {
        let past: i64 = second_of_day(self.secs);
        proof {
            lemma_minute_within_day(self.secs as int);
        }
        ((past % 3_600) / 60) as u32
    }

    /// The text under which this instant is stored, or `None` where the
    /// encoding cannot carry it: the text is only handed out if the same
    /// instant is read back from it.
    pub fn encode(&self) -> (text: Option<String>)
        ensures
            text_view(text) == canonical_text(*self),
    {
        match write_rfc3339(*self) {
            Some(text) => {
                let back = Timestamp::decode(text.as_str());
                self.confirm(text, back)
            },
            None => None,
        }
    }

    /// Hands out `text` as the stored text of this instant if `back`, the
    /// instant read from it, is this instant, and nothing otherwise.
    pub fn confirm(&self, text: String, back: Option<Timestamp>) -> (confirmed: Option<String>)
        ensures
            confirmed == if back == Some(*self) {
                Some(text)
            } else {
                None
            },
    {
        match back {
            Some(read) => if read.secs == self.secs && read.nanos == self.nanos {
                Some(text)
            } else {
                None
            },
            None => None,
        }
    }

    /// The instant that a stored text stands for, or `None` where the text is
    /// no date and time in the stored encoding.
    pub fn decode(text: &str) -> (at: Option<Timestamp>)
        ensures
            at == instant_of_text(text@),
    {
        match read_rfc3339(text) {
            Ok(at) => Some(at),
            Err(_) => None,
        }
    }

    /// Whether this instant falls in the UTC day that holds `now`. The day is
    /// half-open: its first second belongs to it, the first second of the
    /// next day does not.
    pub fn is_due_on_day_of(&self, now: &Timestamp) -> (due: bool)
        ensures
            due == due_on_day_of(self.secs as int, now.secs as int),
    {
        day_number(self.secs) == day_number(now.secs)
    }

    /// The first instant of the UTC day that holds this one, or `None` where
    /// that instant lies before the earliest second that can be counted.
    pub fn start_of_day(&self) -> (start: Option<Timestamp>)
        ensures
            start == first_instant_of_day(*self),
    {
        let past: i64 = second_of_day(self.secs);
        match self.secs.checked_sub(past) {
            Some(secs) => Some(Timestamp { secs, nanos: 0 }),
            None => None,
        }
    }

    /// The first instant of the UTC day after the one that holds this
    /// instant, or `None` where that instant cannot be counted.
    pub fn start_of_next_day(&self) -> (start: Option<Timestamp>)
        ensures
            start == first_instant_of_next_day(*self),
    {
        let left: i64 = SECONDS_PER_DAY - second_of_day(self.secs);
        match self.secs.checked_add(left) {
            Some(secs) => Some(Timestamp { secs, nanos: 0 }),
            None => None,
        }
    }
}

/// The number of the UTC day that holds the second `at`, counted from the
/// epoch; days before the epoch have negative numbers.
pub fn day_number(at: i64) -> (day: i64)
    ensures
        day == at as int / 86_400,
{
    let quotient: i64 = at / SECONDS_PER_DAY;
    let remainder: i64 = at % SECONDS_PER_DAY;
    if remainder < 0 {
        quotient - 1
    } else {
        quotient
    }
}

/// The seconds that have passed since the start of the UTC day that holds
/// the second `at`.
pub fn second_of_day(at: i64) -> (past: i64)
    ensures
        past == at as int % 86_400,
        0 <= past < 86_400,
{
    let remainder: i64 = at % SECONDS_PER_DAY;
    if remainder < 0 {
        remainder + SECONDS_PER_DAY
    } else {
        remainder
    }
}

/// The minute of the hour is the same whether it is counted from the epoch
/// or from the start of the day: a day is a whole number of hours.
pub proof fn lemma_minute_within_day(at: int)
    ensures
        ((at % 86_400) % 3_600) / 60 == minute_of_hour(at),
{
    assert((at % 86_400) % 3_600 == at % 3_600) by (nonlinear_arith);
}

/// A second is due on the day of `now` exactly when both lie in the UTC day
/// with the same number.
pub proof fn lemma_due_is_same_day(at: int, now: int)
    ensures
        due_on_day_of(at, now) <==> at / 86_400 == now / 86_400,
{
    assert(now == 86_400 * (now / 86_400) + now % 86_400) by (nonlinear_arith);
    assert(at == 86_400 * (at / 86_400) + at % 86_400) by (nonlinear_arith);
    assert(0 <= at % 86_400 < 86_400);
    assert(0 <= now % 86_400 < 86_400);
    if at / 86_400 == now / 86_400 {
    } else if at / 86_400 < now / 86_400 {
        assert(86_400 * (at / 86_400) + 86_400 <= 86_400 * (now / 86_400)) by (nonlinear_arith)
            requires
                at / 86_400 < now / 86_400,
        ;
    } else {
        assert(86_400 * (now / 86_400) + 86_400 <= 86_400 * (at / 86_400)) by (nonlinear_arith)
            requires
                now / 86_400 < at / 86_400,
        ;
    }
}

/// The window of a day is half-open. Its first second is due and so is its
/// last, one second before the next day starts; the second before the day
/// and the first second of the next day are not.
pub proof fn lemma_due_window_boundaries(now: int)
    ensures
        due_on_day_of(day_start(now), now),
        !due_on_day_of(day_start(now) - 1, now),
        due_on_day_of(day_start(now) + 86_400 - 1, now),
        !due_on_day_of(day_start(now) + 86_400, now),
        due_on_day_of(now, now),
{
}

/// Every second of a day has the same window: the window depends on the day
/// of `now` alone, not on the time of day at which it is asked for.
pub proof fn lemma_window_is_per_day(now: int, later: int)
    requires
        due_on_day_of(later, now),
    ensures
        day_start(later) == day_start(now),
        forall|at: int| due_on_day_of(at, later) == due_on_day_of(at, now),
{
    lemma_due_is_same_day(later, now);
    assert(now == 86_400 * (now / 86_400) + now % 86_400) by (nonlinear_arith);
    assert(later == 86_400 * (later / 86_400) + later % 86_400) by (nonlinear_arith);
}

} // verus!
