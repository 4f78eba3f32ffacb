//! Cron scheduling helpers: the next occurrence of a schedule, the countdown
//! to it, and how that countdown reads in the tray tooltip.
use std::str::FromStr;
use crate::text::{decimal, pad2, push_decimal, push_pad2};
use crate::time::{valid_instant, MAX_INSTANT_MS};
use vstd::prelude::*;

verus! {

#[verifier::external_type_specification]
#[verifier::external_body]
pub struct ExSchedule(cron::Schedule);

/// Whether the `cron` crate accepts `expr` as a schedule (six or seven fields,
/// seconds first).
pub uninterp spec fn cron_accepts(expr: Seq<char>) -> bool;

/// The text of every error that `cron::Schedule::from_str` reports.
pub open spec fn cron_error_text() -> Seq<char> {
    "Invalid expression: Invalid cron expression."@
}

/// A schedule together with the expression it was parsed from; only
/// `parse_cron` makes one, so the two always agree.
pub struct CronSchedule {
    expr: String,
    schedule: cron::Schedule,
}

impl View for CronSchedule {
    type V = Seq<char>;

    /// The expression the schedule was parsed from.
    closed spec fn view(&self) -> Seq<char> {
        self.expr@
    }
}

/// `cron::Schedule::from_str`. Whether an expression is accepted is named, not
/// spelled out; the crate reports every rejection with the same message.
#[verifier::external_body]
pub(crate) fn parse_cron(expr: &str) -> (r: Result<CronSchedule, String>)
    ensures
        r is Ok == cron_accepts(expr@),
        r matches Ok(s) ==> s@ == expr@,
        r matches Err(e) ==> e@ == cron_error_text(),
{
    match cron::Schedule::from_str(expr) {
        Ok(schedule) => Ok(CronSchedule { expr: expr.to_string(), schedule }),
        Err(e) => Err(e.to_string()),
    }
}

/// The first occurrence of the schedule parsed from `expr` strictly after
/// `after`, in milliseconds since the epoch, as `Schedule::after(..).next()`
/// finds it.
pub uninterp spec fn cron_next(expr: Seq<char>, after: i64) -> Option<i64>;

/// `Schedule::after(..).next()` at `after`, in milliseconds since the epoch.
///
/// Which occurrence comes back is named, not spelled out. The crate starts its
/// search one second past `after` and only yields years from 1970 to 2100, so
/// the occurrence is strictly later than `after`, not before the epoch, and a
/// valid instant.
#[verifier::external_body]
pub(crate) fn schedule_next_after(schedule: &CronSchedule, after: i64) -> (r: Option<i64>)
    requires
        valid_instant(after as int),
        after + 1000 <= MAX_INSTANT_MS,
    ensures
        r == cron_next(schedule@, after),
        r matches Some(t) ==> after < t && 0 <= t && valid_instant(t as int),
{
    let start = chrono::DateTime::from_timestamp_millis(after).unwrap();
    schedule.schedule.after(&start).next().map(|t| t.timestamp_millis())
}

/// The next occurrence of `cron` after `after`, or `None` for an expression
/// the crate rejects.
pub open spec fn next_run(cron: Seq<char>, after: i64) -> Option<i64> {
    if cron_accepts(cron) {
        cron_next(cron, after)
    } else {
        None
    }
}

/// The first occurrence of `cron` strictly after `after`; `None` when the
/// expression is invalid or has no later occurrence.
pub fn next_occurrence(cron: &str, after: i64) -> (r: Option<i64>)
    requires
        valid_instant(after as int),
        after + 1000 <= MAX_INSTANT_MS,
    ensures
        r == next_run(cron@, after),
        r matches Some(t) ==> after < t && 0 <= t && valid_instant(t as int),
{
    match parse_cron(cron) {
        Ok(schedule) => schedule_next_after(&schedule, after),
        Err(_) => None,
    }
}

/// Whole seconds from `now` until `next`, rounded toward zero and never
/// negative (`(next - now).num_seconds().max(0)`).
pub open spec fn whole_seconds_until(next: int, now: int) -> int {
    if next > now {
        (next - now) / 1000
    } else {
        0
    }
}

pub fn seconds_between(next: i64, now: i64) -> (r: i64)
    requires
        valid_instant(next as int),
        valid_instant(now as int),
    ensures
        r == whole_seconds_until(next as int, now as int),
{
    if next > now {
        (next - now) / 1000
    } else {
        0
    }
}

/// Whole seconds until the next occurrence of `cron`, never negative.
pub fn seconds_until_next(cron: &str, now: i64) -> (r: Option<i64>)
    requires
        valid_instant(now as int),
        now + 1000 <= MAX_INSTANT_MS,
    ensures
        r == (match next_run(cron@, now) {
            Some(t) => Some(whole_seconds_until(t as int, now as int) as i64),
            None => None,
        }),
        r matches Some(s) ==> s >= 0,
{
    match next_occurrence(cron, now) {
        Some(next) => Some(seconds_between(next, now)),
        None => None,
    }
}

/// The countdown text of the tray tooltip: "3h 04m", "1m 15s" or "9s";
/// a negative count reads as zero.
pub open spec fn countdown_text(seconds: int) -> Seq<char> {
    let s = if seconds < 0 {
        0
    } else {
        seconds
    };
    let h = s / 3600;
    let m = (s % 3600) / 60;
    let sec = s % 60;
    if h > 0 {
        decimal(h as nat) + "h "@ + pad2(m as nat) + "m"@
    } else if m > 0 {
        decimal(m as nat) + "m "@ + pad2(sec as nat) + "s"@
    } else {
        decimal(sec as nat) + "s"@
    }
}

/// Human-readable countdown used by the tray tooltip, e.g. "4m 12s".
pub fn format_countdown(seconds: i64) -> (r: String)
    ensures
        r@ == countdown_text(seconds as int),
{
    let s: u64 = if seconds < 0 {
        0
    } else {
        seconds as u64
    };
    let h = s / 3600;
    let m = (s % 3600) / 60;
    let sec = s % 60;
    let mut out = String::new();
    if h > 0 {
        push_decimal(&mut out, h);
        out.append("h ");
        push_pad2(&mut out, m);
        out.append("m");
    } else if m > 0 {
        push_decimal(&mut out, m);
        out.append("m ");
        push_pad2(&mut out, sec);
        out.append("s");
    } else {
        push_decimal(&mut out, sec);
        out.append("s");
    }
    out
}

/// A countdown that has already run out reads as zero.
pub proof fn lemma_negative_countdown_reads_zero(seconds: int)
    requires
        seconds < 0,
    ensures
        countdown_text(seconds) == countdown_text(0),
{
}

} // verus!
