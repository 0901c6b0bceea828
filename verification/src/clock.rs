//! Calendar days and instants, and what this library takes to be true of the
//! `chrono` functions that read them.

use vstd::prelude::*;

verus! {

/// The earliest second `chrono` can represent, counted from the Unix epoch.
pub const EARLIEST_SECOND: i64 = -8_334_601_228_800;

/// The latest second `chrono` can represent, counted from the Unix epoch.
pub const LATEST_SECOND: i64 = 8_210_266_876_799;

/// The longest span, in seconds, that a `chrono` time delta can hold.
pub const LONGEST_SPAN: i64 = 9_223_372_036_854_775;

/// A point in time: whole seconds since the Unix epoch, and the nanoseconds
/// past them. A leap second is written as nanoseconds beyond a thousand
/// million.
#[derive(Debug, Clone, Copy, PartialEq, Eq, Structural)]
pub struct Instant {
    pub secs: i64,
    pub nanos: u32,
}

impl Instant {
    /// Whether this instant is not before `other`.
    pub open spec fn reaches(self, other: Instant) -> bool {
        self.secs > other.secs || (self.secs == other.secs && self.nanos >= other.nanos)
    }

    /// Whether a machine's clock can stand at this instant: a second that can be
    /// represented, and a nanosecond of no leap second.
    pub open spec fn readable(self) -> bool {
        EARLIEST_SECOND <= self.secs <= LATEST_SECOND && self.nanos < 1_000_000_000
    }

    /// Whether this instant is not before `other`.
    pub fn at_or_after(self, other: Instant) -> (later: bool)
        ensures
            later == self.reaches(other),
    {
        self.secs > other.secs || (self.secs == other.secs && self.nanos >= other.nanos)
    }
}

/// The day `chrono::NaiveDate::parse_from_str` reads out of a text in
/// `%Y-%m-%d` form, where it reads one: days counted from 1 January of year
/// one, which is day one.
pub uninterp spec fn calendar_day(text: Seq<char>) -> Option<i32>;

/// The seconds and nanoseconds `chrono::DateTime::parse_from_rfc3339` reads
/// out of a text, where it reads a point in time.
pub uninterp spec fn stamp_instant(text: Seq<char>) -> Option<(i64, u32)>;

/// The seconds and nanoseconds of the instant that lies `seconds` before the
/// given one, as `chrono::DateTime::checked_sub_signed` answers.
pub uninterp spec fn instant_before(secs: i64, nanos: u32, seconds: i64) -> Option<(i64, u32)>;

/// `chrono::NaiveDate::parse_from_str` with the format `%Y-%m-%d`: the day it
/// reads, as its day number, named by [`calendar_day`]; nothing where it
/// reads none.
#[verifier::external_body]
pub(crate) fn parse_day(text: &str) -> (day: Option<i32>)
    ensures
        day == calendar_day(text@),
{
    chrono::NaiveDate::parse_from_str(text, "%Y-%m-%d").ok().map(
        |day| chrono::Datelike::num_days_from_ce(&day),
    )
}

/// `chrono::DateTime::parse_from_rfc3339`: the point in time it reads, as
/// seconds and nanoseconds, named by [`stamp_instant`]; nothing where it reads
/// none.
#[verifier::external_body]
pub(crate) fn parse_rfc3339(text: &str) -> (at: Option<(i64, u32)>)
    ensures
        at == stamp_instant(text@),
{
    chrono::DateTime::parse_from_rfc3339(text).ok().map(
        |at| (at.timestamp(), at.timestamp_subsec_nanos()),
    )
}

/// `chrono::Utc::now`: the machine's clock, as seconds and nanoseconds. It reads
/// a second in `chrono`'s range and never a leap second. Which one it reads is
/// the machine's, and nothing is said of it; a clock set to before the Unix
/// epoch makes `chrono` panic.
#[verifier::external_body]
pub(crate) fn clock_reading() -> (at: (i64, u32))
    ensures
        EARLIEST_SECOND <= at.0 <= LATEST_SECOND,
        at.1 < 1_000_000_000,
{
    let now = chrono::Utc::now();
    (now.timestamp(), now.timestamp_subsec_nanos())
}

/// `chrono::TimeDelta::try_seconds`: whether a span of so many seconds can be
/// held, which it can up to [`LONGEST_SPAN`] either way.
#[verifier::external_body]
pub(crate) fn span_is_held(seconds: i64) -> (held: bool)
    ensures
        held == (-LONGEST_SPAN <= seconds <= LONGEST_SPAN),
{
    chrono::TimeDelta::try_seconds(seconds).is_some()
}

/// The same nanosecond of the second that lies `seconds` before, where both
/// seconds can be represented.
pub open spec fn second_before(secs: i64, nanos: u32, seconds: i64) -> Option<(i64, u32)> {
    if EARLIEST_SECOND <= secs <= LATEST_SECOND && EARLIEST_SECOND <= secs - seconds
        <= LATEST_SECOND {
        Some(((secs - seconds) as i64, nanos))
    } else {
        None
    }
}

/// `chrono::DateTime::checked_sub_signed`: the instant `seconds` before the
/// given one, named by [`instant_before`]. Away from a leap second that is the
/// same nanosecond of the second so many before, and nothing where either
/// second is out of `chrono`'s range.
#[verifier::external_body]
pub(crate) fn subtract_span(secs: i64, nanos: u32, seconds: i64) -> (at: Option<(i64, u32)>)
    requires
        -LONGEST_SPAN <= seconds <= LONGEST_SPAN,
    ensures
        at == instant_before(secs, nanos, seconds),
        nanos >= 1_000_000_000 || at == second_before(secs, nanos, seconds),
{
    let now = chrono::DateTime::from_timestamp(secs, nanos)?;
    let at = now.checked_sub_signed(chrono::TimeDelta::seconds(seconds))?;
    Some((at.timestamp(), at.timestamp_subsec_nanos()))
}

/// What a pair of seconds and nanoseconds says, as an instant.
pub open spec fn instant_of(pair: Option<(i64, u32)>) -> Option<Instant> {
    match pair {
        Some((secs, nanos)) => Some(Instant { secs, nanos }),
        None => None,
    }
}

/// The instant a row's stamp names, where it names one.
pub open spec fn stamped(text: Seq<char>) -> Option<Instant> {
    instant_of(stamp_instant(text))
}

/// The instant a row's stamp names. A stamp carries its own offset, so two
/// stamps are compared as instants and never as texts.
pub fn parse_stamp(text: &str) -> (at: Option<Instant>)
    ensures
        at == stamped(text@),
{
    match parse_rfc3339(text) {
        Some((secs, nanos)) => Some(Instant { secs, nanos }),
        None => None,
    }
}

/// The present, off the machine's clock.
pub fn now_instant() -> (now: Instant)
    ensures
        now.readable(),
{
    let (secs, nanos) = clock_reading();
    Instant { secs, nanos }
}

/// Where a window of so many seconds that ends at `now` begins. A span too
/// long to be held counts as none at all.
pub open spec fn window_start(now: Instant, seconds: i64) -> Option<Instant> {
    let span = if -LONGEST_SPAN <= seconds <= LONGEST_SPAN {
        seconds
    } else {
        0
    };
    instant_of(instant_before(now.secs, now.nanos, span))
}

/// Where a window of so many seconds that ends at `now` begins, where the
/// clock's range reaches that far.
pub fn cutoff(now: Instant, seconds: i64) -> (start: Option<Instant>)
    ensures
        start == window_start(now, seconds),
        now.nanos < 1_000_000_000 && -LONGEST_SPAN <= seconds <= LONGEST_SPAN ==> start
            == instant_of(second_before(now.secs, now.nanos, seconds)),
{
    let span: i64 = if span_is_held(seconds) {
        seconds
    } else {
        0
    };
    match subtract_span(now.secs, now.nanos, span) {
        Some((secs, nanos)) => Some(Instant { secs, nanos }),
        None => None,
    }
}

/// The weekday of a day, by its day number: day one is a Monday.
pub open spec fn weekday_of(day: i32) -> Seq<char> {
    seq![
        "Monday"@,
        "Tuesday"@,
        "Wednesday"@,
        "Thursday"@,
        "Friday"@,
        "Saturday"@,
        "Sunday"@,
    ][(day - 1) % 7]
}

/// The weekday of a day, in full.
pub fn weekday(day: i32) -> (name: &'static str)
    ensures
        name@ == weekday_of(day),
{
    // A whole number of weeks that lifts every day number above zero.
    let lifted: i64 = day as i64 - 1 + 2_147_483_653;
    let rest: u64 = (lifted as u64) % 7;
    assert(rest == (day - 1) % 7);
    if rest == 0 {
        "Monday"
    } else if rest == 1 {
        "Tuesday"
    } else if rest == 2 {
        "Wednesday"
    } else if rest == 3 {
        "Thursday"
    } else if rest == 4 {
        "Friday"
    } else if rest == 5 {
        "Saturday"
    } else {
        "Sunday"
    }
}

/// The weekdays follow one another from the first day on, which is a Monday,
/// and come round every seven days, before that day as after it.
pub proof fn the_weekdays_come_round(day: i32, week: int)
    ensures
        day == 1 + 7 * week ==> weekday_of(day) == "Monday"@,
        day == 2 + 7 * week ==> weekday_of(day) == "Tuesday"@,
        day == 3 + 7 * week ==> weekday_of(day) == "Wednesday"@,
        day == 4 + 7 * week ==> weekday_of(day) == "Thursday"@,
        day == 5 + 7 * week ==> weekday_of(day) == "Friday"@,
        day == 6 + 7 * week ==> weekday_of(day) == "Saturday"@,
        day == 7 + 7 * week ==> weekday_of(day) == "Sunday"@,
{
}

/// Of two instants one is not before the other; both are so only where they
/// are one instant; and a later second is later whatever its nanoseconds.
pub proof fn instants_are_ordered(one: Instant, other: Instant, third: Instant)
    ensures
        one.reaches(other) || other.reaches(one),
        one.reaches(other) && other.reaches(one) <==> one == other,
        one.reaches(other) && other.reaches(third) ==> one.reaches(third),
        one.secs > other.secs ==> one.reaches(other) && !other.reaches(one),
        one.secs == other.secs && one.nanos > other.nanos ==> one.reaches(other) && !other.reaches(
            one,
        ),
{
}

/// A window begins its own span before it ends, at the same nanosecond. A span
/// too long to be held begins it where no span at all would.
pub proof fn a_window_begins_its_span_before(now: Instant, seconds: i64)
    ensures
        second_before(now.secs, now.nanos, seconds) matches Some((secs, nanos)) ==> secs + seconds
            == now.secs && nanos == now.nanos,
        second_before(now.secs, now.nanos, seconds) is Some <==> EARLIEST_SECOND <= now.secs
            <= LATEST_SECOND && EARLIEST_SECOND <= now.secs - seconds <= LATEST_SECOND,
        seconds < -LONGEST_SPAN || seconds > LONGEST_SPAN ==> window_start(now, seconds)
            == window_start(now, 0),
        -LONGEST_SPAN <= seconds <= LONGEST_SPAN ==> (match instant_before(
            now.secs,
            now.nanos,
            seconds,
        ) {
            Some((secs, nanos)) => window_start(now, seconds) == Some(Instant { secs, nanos }),
            None => window_start(now, seconds) is None,
        }),
{
}

/// A stamp names the point in time that is read out of it, and none where none
/// is read.
pub proof fn a_stamp_names_what_is_read(text: Seq<char>)
    ensures
        stamped(text) is Some <==> stamp_instant(text) is Some,
        stamped(text) matches Some(at) ==> stamp_instant(text) == Some((at.secs, at.nanos)),
{
}

} // verus!
