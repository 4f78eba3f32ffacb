//! Instants and spans of time as whole milliseconds.
//!
//! An instant is milliseconds since 1970-01-01T00:00:00 UTC and lies within the
//! range of a `chrono::DateTime<Utc>`; a span is a signed number of
//! milliseconds within the range of a `chrono::TimeDelta` (±`i64::MAX` ms).
use chrono::TimeZone;
use vstd::prelude::*;

verus! {

/// The earliest instant a `DateTime<Utc>` can hold (year -262143, January 1).
pub const MIN_INSTANT_MS: i64 = -8_334_601_315_200_000;

/// The latest instant a `DateTime<Utc>` can hold, to the millisecond
/// (year 262142, December 31, 23:59:59.999).
pub const MAX_INSTANT_MS: i64 = 8_210_266_876_799_999;

pub const MINUTE_MS: i64 = 60_000;

pub const HOUR_MS: i64 = 3_600_000;

pub const DAY_MS: i64 = 86_400_000;

pub const WEEK_MS: i64 = 604_800_000;

/// Day number (days since 1970-01-01) of the first representable date.
pub const MIN_DAY: i64 = -96_465_293;

/// Day number of the last representable date.
pub const MAX_DAY: i64 = 95_026_236;

pub open spec fn valid_instant(t: int) -> bool {
    MIN_INSTANT_MS <= t && t <= MAX_INSTANT_MS
}

/// Whether `d` milliseconds fit in a `TimeDelta`.
pub open spec fn span_fits(d: int) -> bool {
    -i64::MAX <= d && d <= i64::MAX
}

/// The day number of the calendar day that holds instant `t` (floor division).
pub open spec fn day_of(t: int) -> int {
    t / (DAY_MS as int)
}

/// Day of the week of day number `day`, counted from Monday = 0.
/// Day 0 (1970-01-01) was a Thursday.
pub open spec fn weekday_index(day: int) -> int {
    (day + 3) % 7
}

/// The current time, read from the system clock.
///
/// `chrono::Utc::now()` converted with `timestamp_millis`: nothing is promised
/// of which instant comes back beyond its lying in the range of a `DateTime`.
#[verifier::external_body]
pub(crate) fn now_ms() -> (t: i64)
    ensures
        valid_instant(t as int),
{
    chrono::Utc::now().timestamp_millis()
}

/// The machine's local wall-clock reading at instant `t`, as milliseconds of a
/// naive date-time (`DateTime::with_timezone(&Local).naive_local()`).
///
/// It depends on the machine's time zone, so only what holds of every zone is
/// stated: a `chrono` offset is less than a day either way.
#[verifier::external_body]
pub(crate) fn local_wall_clock_ms(t: i64) -> (local: i64)
    requires
        MIN_INSTANT_MS + DAY_MS <= t && t + DAY_MS <= MAX_INSTANT_MS,
    ensures
        t - DAY_MS < local && local < t + DAY_MS,
{
    let utc = chrono::DateTime::from_timestamp_millis(t).unwrap();
    utc.with_timezone(&chrono::Local).naive_local().and_utc().timestamp_millis()
}

/// The instant at which the machine's local wall clock reads `local`
/// (`Local.from_local_datetime(..).single()`), or `None` when that reading is
/// skipped or repeated by a time-zone transition.
///
/// It depends on the machine's time zone, so only what holds of every zone is
/// stated: a `chrono` offset is less than a day either way.
#[verifier::external_body]
pub(crate) fn local_reading_to_instant(local: i64) -> (t: Option<i64>)
    requires
        MIN_INSTANT_MS + DAY_MS <= local && local + DAY_MS <= MAX_INSTANT_MS,
    ensures
        t matches Some(t) ==> local - DAY_MS < t && t < local + DAY_MS,
{
    let naive = chrono::DateTime::from_timestamp_millis(local).unwrap().naive_utc();
    chrono::Local.from_local_datetime(&naive).single().map(|dt| dt.timestamp_millis())
}

} // verus!
