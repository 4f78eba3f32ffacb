//! Usage-limits scraping: session and weekly usage percentages and their
//! reset countdowns, as read from the usage page.
//!
//! The page's wording follows the account's language (English "Resets in 3
//! hr 43 min", Portuguese "Reinicia em 3 h 48 min"), so the parsing here is
//! tolerant of word order: it looks for number-then-unit pairs, or for a
//! weekday name and a clock time.
use crate::text::{
    char_is_alphabetic, has_substring, parse_digits_u32, parse_i64, parse_i64_text,
    parse_u32_digits, split_whitespace, split_ws, starts_with, to_lowercase, unicode_alphabetic,
    unicode_lowercase, views_of, contains, chars_of, push_char, is_ascii_digit,
};
use crate::time::{
    day_of, local_reading_to_instant, local_wall_clock_ms, span_fits, valid_instant,
    weekday_index, DAY_MS, HOUR_MS, MAX_DAY, MAX_INSTANT_MS, MINUTE_MS, MIN_DAY, MIN_INSTANT_MS,
    WEEK_MS,
};
use vstd::prelude::*;

verus! {

/// One metric of the usage panel: a percentage and, best-effort, when it resets.
#[derive(Debug, PartialEq, Eq)]
pub struct MetricSnapshot {
    pub percent: u8,
    /// `None` when the percent was scraped but the reset text could not be parsed.
    pub reset_at: Option<i64>,
    /// The raw reset text, set only when it was scraped but could not be parsed.
    pub reset_note: Option<String>,
}

/// A resolved snapshot of the usage panel. Session and weekly are independent:
/// one metric failing to scrape or parse never blanks the other.
#[derive(Debug, PartialEq, Eq)]
pub struct UsageSnapshot {
    pub session: Option<MetricSnapshot>,
    pub weekly: Option<MetricSnapshot>,
    /// When this snapshot was scraped.
    pub fetched_at: i64,
}

/// One entry in the usage-check history.
#[derive(Debug, PartialEq, Eq)]
pub struct UsageLogEntry {
    pub ok: bool,
    pub detail: String,
    pub latency_ms: u64,
    pub at: i64,
}

/// Raw payload posted back by the injected scraper; every field is optional
/// because the scraper reports whatever it found.
#[derive(Debug, PartialEq, Eq)]
pub struct UsageProbePayload {
    pub session_percent: Option<u8>,
    pub session_reset_text: Option<String>,
    pub weekly_percent: Option<u8>,
    pub weekly_reset_text: Option<String>,
    /// True when the scraper found the login screen instead of the usage panel.
    pub logged_out: bool,
    pub nonce: u64,
}

/// A day of the week.
#[derive(Clone, Copy, Debug, PartialEq, Eq, Structural)]
pub enum Weekday {
    Mon,
    Tue,
    Wed,
    Thu,
    Fri,
    Sat,
    Sun,
}

impl Weekday {
    /// Days since Monday.
    pub open spec fn index(self) -> int {
        match self {
            Weekday::Mon => 0,
            Weekday::Tue => 1,
            Weekday::Wed => 2,
            Weekday::Thu => 3,
            Weekday::Fri => 4,
            Weekday::Sat => 5,
            Weekday::Sun => 6,
        }
    }

    fn days_since_monday(&self) -> (r: i64)
        ensures
            r == self.index(),
    {
        match self {
            Weekday::Mon => 0,
            Weekday::Tue => 1,
            Weekday::Wed => 2,
            Weekday::Thu => 3,
            Weekday::Fri => 4,
            Weekday::Sat => 5,
            Weekday::Sun => 6,
        }
    }
}

pub open spec fn opt_int(o: Option<i64>) -> Option<int> {
    match o {
        Some(v) => Some(v as int),
        None => None,
    }
}

// ------------------------------------------------------------- relative form

/// The number-then-unit pairs found so far: the last value seen for each unit.
pub struct RelativeParts {
    pub weeks: i64,
    pub days: i64,
    pub hours: i64,
    pub minutes: i64,
    pub found: bool,
}

pub open spec fn no_parts() -> RelativeParts {
    RelativeParts { weeks: 0, days: 0, hours: 0, minutes: 0, found: false }
}

/// Records `n` under the unit that the lowercased token `unit` names.
pub open spec fn apply_unit(p: RelativeParts, n: i64, unit: Seq<char>) -> RelativeParts {
    if "min"@.is_prefix_of(unit) {
        RelativeParts { minutes: n, found: true, ..p }
    } else if "week"@.is_prefix_of(unit) || "semana"@.is_prefix_of(unit) {
        RelativeParts { weeks: n, found: true, ..p }
    } else if "day"@.is_prefix_of(unit) || "dia"@.is_prefix_of(unit) {
        RelativeParts { days: n, found: true, ..p }
    } else if unit.len() > 0 && unit[0] == 'h' {
        RelativeParts { hours: n, found: true, ..p }
    } else {
        p
    }
}

/// Looks at token `i`: a number followed by a unit word updates that unit.
pub open spec fn scan_step(p: RelativeParts, toks: Seq<Seq<char>>, i: int) -> RelativeParts {
    match parse_i64_text(toks[i]) {
        Some(n) => if i + 1 < toks.len() {
            apply_unit(p, n, unicode_lowercase(toks[i + 1]))
        } else {
            p
        },
        None => p,
    }
}

pub open spec fn scan_upto(toks: Seq<Seq<char>>, k: nat) -> RelativeParts
    decreases k,
{
    if k == 0 {
        no_parts()
    } else {
        scan_step(scan_upto(toks, (k - 1) as nat), toks, k - 1)
    }
}

/// The number-then-unit pairs of `text`.
pub open spec fn relative_parts(text: Seq<char>) -> RelativeParts {
    let toks = split_ws(text);
    scan_upto(toks, toks.len())
}

pub open spec fn parts_ms(p: RelativeParts) -> int {
    p.weeks * WEEK_MS + p.days * DAY_MS + p.hours * HOUR_MS + p.minutes * MINUTE_MS
}

/// Whether every span built on the way to the total fits in a `TimeDelta`
/// (`TimeDelta::weeks` and friends, and each `+`, panic otherwise).
pub open spec fn parts_fit(p: RelativeParts) -> bool {
    p.found ==> {
        &&& span_fits(p.weeks * WEEK_MS)
        &&& span_fits(p.days * DAY_MS)
        &&& span_fits(p.hours * HOUR_MS)
        &&& span_fits(p.minutes * MINUTE_MS)
        &&& span_fits(p.weeks * WEEK_MS + p.days * DAY_MS)
        &&& span_fits(p.weeks * WEEK_MS + p.days * DAY_MS + p.hours * HOUR_MS)
        &&& span_fits(parts_ms(p))
    }
}

/// The relative "N unit" reading of `text`, in milliseconds.
pub open spec fn relative_offset(text: Seq<char>) -> Option<int> {
    let p = relative_parts(text);
    if p.found {
        Some(parts_ms(p))
    } else {
        None
    }
}

pub open spec fn relative_offset_fits(text: Seq<char>) -> bool {
    parts_fit(relative_parts(text))
}

fn apply_unit_exec(p: RelativeParts, n: i64, unit: &str) -> (r: RelativeParts)
    ensures
        r == apply_unit(p, n, unit@),
{
    if starts_with(unit, "min") {
        RelativeParts { minutes: n, found: true, ..p }
    } else if starts_with(unit, "week") || starts_with(unit, "semana") {
        RelativeParts { weeks: n, found: true, ..p }
    } else if starts_with(unit, "day") || starts_with(unit, "dia") {
        RelativeParts { days: n, found: true, ..p }
    } else if unit.unicode_len() > 0 && unit.get_char(0) == 'h' {
        RelativeParts { hours: n, found: true, ..p }
    } else {
        p
    }
}

/// Collects the number-then-unit pairs of `text`.
pub fn scan_relative(text: &str) -> (r: RelativeParts)
    ensures
        r == relative_parts(text@),
{
    let tokens = split_whitespace(text);
    let ghost toks = split_ws(text@);
    let n = tokens.len();
    let mut p = RelativeParts { weeks: 0, days: 0, hours: 0, minutes: 0, found: false };
    let mut i: usize = 0;
    while i < n
        invariant
            views_of(tokens@) == toks,
            n == tokens@.len(),
            0 <= i <= n,
            p == scan_upto(toks, i as nat),
        decreases n - i,
    {
        assert(views_of(tokens@)[i as int] == tokens@[i as int]@);
        let parsed = parse_i64(tokens[i].as_str());
        match parsed {
            Some(v) => {
                if i + 1 < n {
                    assert(views_of(tokens@)[i + 1] == tokens@[i + 1]@);
                    let unit = to_lowercase(tokens[i + 1].as_str());
                    p = apply_unit_exec(p, v, unit.as_str());
                }
            },
            None => {},
        }
        i = i + 1;
    }
    p
}

/// Whether `p` adds up without any step leaving the range of a `TimeDelta`.
pub fn parts_fit_exec(p: &RelativeParts) -> (r: bool)
    ensures
        r == parts_fit(*p),
{
    if !p.found {
        return true;
    }
    let max: i128 = 0x7fff_ffff_ffff_ffff;
    let w = (p.weeks as i128) * 604_800_000;
    let d = (p.days as i128) * 86_400_000;
    let h = (p.hours as i128) * 3_600_000;
    let m = (p.minutes as i128) * 60_000;
    let fits = |x: i128| -> (b: bool)
        ensures
            b == span_fits(x as int),
        { -max <= x && x <= max };
    fits(w) && fits(d) && fits(h) && fits(m) && fits(w + d) && fits(w + d + h) && fits(w + d + h
        + m)
}

/// The relative "N unit" shape: "3 hr 43 min", "6 days", "1 semana". The
/// value last seen for each unit counts; the offset is in milliseconds.
pub fn parse_relative_offset(text: &str) -> (r: Option<i64>)
    requires
        relative_offset_fits(text@),
    ensures
        opt_int(r) == relative_offset(text@),
{
    let p = scan_relative(text);
    if !p.found {
        return None;
    }
    let total = (p.weeks as i128) * 604_800_000 + (p.days as i128) * 86_400_000 + (p.hours as i128)
        * 3_600_000 + (p.minutes as i128) * 60_000;
    Some(total as i64)
}

// ------------------------------------------------------------- weekday form

/// The alphabetic characters of `s`, in order.
pub open spec fn alpha_only(s: Seq<char>) -> Seq<char>
    decreases s.len(),
{
    if s.len() == 0 {
        Seq::empty()
    } else if unicode_alphabetic(s.last()) {
        alpha_only(s.drop_last()).push(s.last())
    } else {
        alpha_only(s.drop_last())
    }
}

/// The weekday that a lowercased word names, by a distinctive three-letter
/// prefix in English or Portuguese.
pub open spec fn weekday_of_key(key: Seq<char>) -> Option<Weekday> {
    if "sun"@.is_prefix_of(key) || "dom"@.is_prefix_of(key) {
        Some(Weekday::Sun)
    } else if "mon"@.is_prefix_of(key) || "seg"@.is_prefix_of(key) {
        Some(Weekday::Mon)
    } else if "tue"@.is_prefix_of(key) || "ter"@.is_prefix_of(key) {
        Some(Weekday::Tue)
    } else if "wed"@.is_prefix_of(key) || "qua"@.is_prefix_of(key) {
        Some(Weekday::Wed)
    } else if "thu"@.is_prefix_of(key) || "qui"@.is_prefix_of(key) {
        Some(Weekday::Thu)
    } else if "fri"@.is_prefix_of(key) || "sex"@.is_prefix_of(key) {
        Some(Weekday::Fri)
    } else if "sat"@.is_prefix_of(key) || "sab"@.is_prefix_of(key) || "sáb"@.is_prefix_of(key) {
        Some(Weekday::Sat)
    } else {
        None
    }
}

/// The first token, from `i` on, that names a weekday.
pub open spec fn first_weekday(toks: Seq<Seq<char>>, i: int) -> Option<Weekday>
    decreases toks.len() - i,
{
    if i < 0 || i >= toks.len() {
        None
    } else {
        match weekday_of_key(alpha_only(toks[i])) {
            Some(d) => Some(d),
            None => first_weekday(toks, i + 1),
        }
    }
}

/// The weekday named in `text`, if any.
pub open spec fn weekday_in(text: Seq<char>) -> Option<Weekday> {
    first_weekday(split_ws(unicode_lowercase(text)), 0)
}

fn alpha_key(tok: &str) -> (r: String)
    ensures
        r@ == alpha_only(tok@),
{
    let cs = chars_of(tok);
    let mut out = String::new();
    let mut j: usize = 0;
    while j < cs.len()
        invariant
            cs@ == tok@,
            0 <= j <= cs.len(),
            out@ == alpha_only(cs@.take(j as int)),
        decreases cs.len() - j,
    {
        let c = cs[j];
        assert(cs@.take(j + 1).drop_last() =~= cs@.take(j as int));
        if char_is_alphabetic(c) {
            push_char(&mut out, c);
        }
        j = j + 1;
    }
    assert(cs@.take(cs.len() as int) =~= cs@);
    out
}

fn weekday_of_key_exec(key: &str) -> (r: Option<Weekday>)
    ensures
        r == weekday_of_key(key@),
{
    if starts_with(key, "sun") || starts_with(key, "dom") {
        Some(Weekday::Sun)
    } else if starts_with(key, "mon") || starts_with(key, "seg") {
        Some(Weekday::Mon)
    } else if starts_with(key, "tue") || starts_with(key, "ter") {
        Some(Weekday::Tue)
    } else if starts_with(key, "wed") || starts_with(key, "qua") {
        Some(Weekday::Wed)
    } else if starts_with(key, "thu") || starts_with(key, "qui") {
        Some(Weekday::Thu)
    } else if starts_with(key, "fri") || starts_with(key, "sex") {
        Some(Weekday::Fri)
    } else if starts_with(key, "sat") || starts_with(key, "sab") || starts_with(key, "sáb") {
        Some(Weekday::Sat)
    } else {
        None
    }
}

/// Finds a weekday name, tolerant of English ("Sun", "Sunday") and
/// Portuguese ("dom", "domingo") forms, by a distinctive three-letter prefix.
pub fn find_weekday(text: &str) -> (r: Option<Weekday>)
    ensures
        r == weekday_in(text@),
{
    let lower = to_lowercase(text);
    let tokens = split_whitespace(lower.as_str());
    let ghost toks = split_ws(lower@);
    let n = tokens.len();
    let mut i: usize = 0;
    while i < n
        invariant
            views_of(tokens@) == toks,
            toks == split_ws(unicode_lowercase(text@)),
            n == tokens@.len(),
            0 <= i <= n,
            first_weekday(toks, 0) == first_weekday(toks, i as int),
        decreases n - i,
    {
        assert(views_of(tokens@)[i as int] == tokens@[i as int]@);
        let key = alpha_key(tokens[i].as_str());
        let day = weekday_of_key_exec(key.as_str());
        if day.is_some() {
            return day;
        }
        i = i + 1;
    }
    None
}

// ------------------------------------------------------------- clock time

pub open spec fn is_clock_char(c: char) -> bool {
    is_ascii_digit(c) || c == ':'
}

/// The ASCII digits and colons of `s`, in order.
pub open spec fn clock_chars(s: Seq<char>) -> Seq<char>
    decreases s.len(),
{
    if s.len() == 0 {
        Seq::empty()
    } else if is_clock_char(s.last()) {
        clock_chars(s.drop_last()).push(s.last())
    } else {
        clock_chars(s.drop_last())
    }
}

/// The position of the first ':' of `s` at or after `k`.
pub open spec fn colon_from(s: Seq<char>, k: int) -> Option<int>
    decreases s.len() - k,
{
    if k < 0 || k >= s.len() {
        None
    } else if s[k] == ':' {
        Some(k)
    } else {
        colon_from(s, k + 1)
    }
}

/// Applies an AM/PM `marker` to a clock hour.
pub open spec fn apply_marker(hour: u32, marker: Seq<char>) -> u32 {
    if "pm"@.is_prefix_of(marker) {
        if hour < 12 {
            (hour + 12) as u32
        } else {
            hour
        }
    } else if "am"@.is_prefix_of(marker) && hour == 12 {
        0
    } else {
        hour
    }
}

/// The clock time that token `i` holds, if it holds one: "7:00" with an
/// optional AM/PM marker in the same token or the next one.
pub open spec fn clock_in_token(toks: Seq<Seq<char>>, i: int) -> Option<(u32, u32)> {
    let dc = clock_chars(toks[i]);
    match colon_from(dc, 0) {
        None => None,
        Some(p) => {
            let h = dc.subrange(0, p);
            let m = dc.subrange(p + 1, dc.len() as int);
            match (parse_digits_u32(h), parse_digits_u32(m)) {
                (Some(hour), Some(minute)) => if hour > 23 || minute > 59 {
                    None
                } else {
                    let same = unicode_lowercase(toks[i]);
                    let next = if i + 1 < toks.len() {
                        unicode_lowercase(toks[i + 1])
                    } else {
                        Seq::empty()
                    };
                    let marker = if has_substring(same, "am"@) || has_substring(same, "pm"@) {
                        same
                    } else {
                        next
                    };
                    Some((apply_marker(hour, marker), minute))
                },
                _ => None,
            }
        },
    }
}

/// The first token, from `i` on, that holds a clock time.
pub open spec fn first_clock(toks: Seq<Seq<char>>, i: int) -> Option<(u32, u32)>
    decreases toks.len() - i,
{
    if i < 0 || i >= toks.len() {
        None
    } else {
        match clock_in_token(toks, i) {
            Some(t) => Some(t),
            None => first_clock(toks, i + 1),
        }
    }
}

/// The clock time written in `text`, as (hour, minute) on a 24-hour clock.
pub open spec fn clock_in(text: Seq<char>) -> Option<(u32, u32)> {
    first_clock(split_ws(text), 0)
}

fn clock_chars_of(tok: &str) -> (r: Vec<char>)
    ensures
        r@ == clock_chars(tok@),
{
    let cs = chars_of(tok);
    let mut out: Vec<char> = Vec::new();
    let mut j: usize = 0;
    while j < cs.len()
        invariant
            cs@ == tok@,
            0 <= j <= cs.len(),
            out@ == clock_chars(cs@.take(j as int)),
        decreases cs.len() - j,
    {
        let c = cs[j];
        assert(cs@.take(j + 1).drop_last() =~= cs@.take(j as int));
        if ('0' <= c && c <= '9') || c == ':' {
            out.push(c);
        }
        j = j + 1;
    }
    assert(cs@.take(cs.len() as int) =~= cs@);
    out
}

fn first_colon(s: &Vec<char>) -> (r: Option<usize>)
    ensures
        match r {
            Some(p) => colon_from(s@, 0) == Some(p as int),
            None => colon_from(s@, 0) is None,
        },
        r matches Some(p) ==> p < s.len(),
{
    let mut k: usize = 0;
    while k < s.len()
        invariant
            0 <= k <= s.len(),
            colon_from(s@, 0) == colon_from(s@, k as int),
        decreases s.len() - k,
    {
        if s[k] == ':' {
            return Some(k);
        }
        k = k + 1;
    }
    None
}

fn slice_chars(s: &Vec<char>, from: usize, to: usize) -> (r: Vec<char>)
    requires
        from <= to <= s.len(),
    ensures
        r@ == s@.subrange(from as int, to as int),
{
    let mut out: Vec<char> = Vec::new();
    let mut k = from;
    while k < to
        invariant
            from <= k <= to,
            to <= s.len(),
            out@ == s@.subrange(from as int, k as int),
        decreases to - k,
    {
        out.push(s[k]);
        k = k + 1;
        assert(out@ =~= s@.subrange(from as int, k as int));
    }
    out
}

fn apply_marker_exec(hour: u32, marker: &str) -> (r: u32)
    requires
        hour <= 23,
    ensures
        r == apply_marker(hour, marker@),
        r <= 23,
{
    if starts_with(marker, "pm") {
        if hour < 12 {
            hour + 12
        } else {
            hour
        }
    } else if starts_with(marker, "am") && hour == 12 {
        0
    } else {
        hour
    }
}

fn clock_in_token_exec(tokens: &Vec<String>, i: usize) -> (r: Option<(u32, u32)>)
    requires
        i < tokens.len(),
    ensures
        r == clock_in_token(views_of(tokens@), i as int),
        r matches Some((h, m)) ==> h <= 23 && m <= 59,
{
    let ghost toks = views_of(tokens@);
    assert(toks[i as int] == tokens@[i as int]@);
    let dc = clock_chars_of(tokens[i].as_str());
    let colon = first_colon(&dc);
    let p = match colon {
        None => {
            return None;
        },
        Some(p) => p,
    };
    let h = slice_chars(&dc, 0, p);
    let m = slice_chars(&dc, p + 1, dc.len());
    let hour = match parse_u32_digits(&h) {
        Some(v) => v,
        None => {
            return None;
        },
    };
    let minute = match parse_u32_digits(&m) {
        Some(v) => v,
        None => {
            return None;
        },
    };
    if hour > 23 || minute > 59 {
        return None;
    }
    let same = to_lowercase(tokens[i].as_str());
    let next = if i + 1 < tokens.len() {
        assert(toks[i + 1] == tokens@[i + 1]@);
        to_lowercase(tokens[i + 1].as_str())
    } else {
        String::new()
    };
    let marker = if contains(same.as_str(), "am") || contains(same.as_str(), "pm") {
        same
    } else {
        next
    };
    Some((apply_marker_exec(hour, marker.as_str()), minute))
}

/// Finds a clock time like "7:00", with an adjoining AM/PM marker if there
/// is one (a 12-hour English clock); a 24-hour reading is used as it is.
pub fn find_clock_time(text: &str) -> (r: Option<(u32, u32)>)
    ensures
        r == clock_in(text@),
        r matches Some((h, m)) ==> h <= 23 && m <= 59,
{
    let tokens = split_whitespace(text);
    let ghost toks = split_ws(text@);
    let n = tokens.len();
    let mut i: usize = 0;
    while i < n
        invariant
            views_of(tokens@) == toks,
            toks == split_ws(text@),
            n == tokens@.len(),
            0 <= i <= n,
            first_clock(toks, 0) == first_clock(toks, i as int),
        decreases n - i,
    {
        let t = clock_in_token_exec(&tokens, i);
        if t.is_some() {
            return t;
        }
        i = i + 1;
    }
    None
}

// ------------------------------------------------------------- weekday + time

/// Days from day number `day` to the next day (possibly `day` itself) that
/// falls on `wd`.
pub open spec fn days_until(day: int, wd: Weekday) -> int {
    (wd.index() - weekday_index(day)) % 7
}

/// The wall-clock reading of the next `wd` at `hour:minute`, counting from
/// the calendar day of the wall-clock reading `local`; `None` when that day
/// lies past the last representable date.
pub open spec fn naive_target(wd: Weekday, hour: u32, minute: u32, local: int) -> Option<int> {
    let day = day_of(local) + days_until(day_of(local), wd);
    if day > MAX_DAY {
        None
    } else {
        Some(day * DAY_MS + hour * HOUR_MS + minute * MINUTE_MS)
    }
}

/// A reset instant that is not after `now` is a full week out.
pub open spec fn rolled(target: int, now: int) -> int {
    if target <= now {
        target + WEEK_MS
    } else {
        target
    }
}

/// The "weekday + clock time" reading of `text` at instant `now`, for a time
/// zone `offset` milliseconds ahead of UTC, as an offset from `now`.
pub open spec fn weekday_time_offset(text: Seq<char>, now: int, offset: int) -> Option<int> {
    match (weekday_in(text), clock_in(text)) {
        (Some(wd), Some((hour, minute))) => match naive_target(wd, hour, minute, now + offset) {
            Some(naive) => {
                let target = naive - offset;
                if valid_instant(target) {
                    Some(rolled(target, now) - now)
                } else {
                    None
                }
            },
            None => None,
        },
        _ => None,
    }
}

/// The inputs on which reading "weekday + clock time" stays within the range
/// of a `DateTime` (the local reading of `now`, and the week added to a
/// target that has passed).
pub open spec fn weekday_time_in_range(text: Seq<char>, now: int, offset: int) -> bool {
    match (weekday_in(text), clock_in(text)) {
        (Some(wd), Some((hour, minute))) => {
            &&& valid_instant(now + offset)
            &&& match naive_target(wd, hour, minute, now + offset) {
                Some(naive) => {
                    let target = naive - offset;
                    valid_instant(target) && target <= now ==> valid_instant(target + WEEK_MS)
                },
                None => true,
            }
        },
        _ => true,
    }
}

proof fn lemma_day_of(t: int, q: int, r: int)
    requires
        t - MIN_INSTANT_MS == q * DAY_MS + r,
        0 <= r < DAY_MS,
    ensures
        day_of(t) == q + MIN_DAY,
{
    assert(t == (q + MIN_DAY) * DAY_MS + r) by (nonlinear_arith)
        requires
            t - MIN_INSTANT_MS == q * DAY_MS + r,
    ;
    vstd::arithmetic::div_mod::lemma_fundamental_div_mod_converse(t, DAY_MS as int, q + MIN_DAY, r);
}

fn naive_target_exec(wd: Weekday, hour: u32, minute: u32, local: i64) -> (r: Option<i64>)
    requires
        valid_instant(local as int),
        hour <= 23,
        minute <= 59,
    ensures
        opt_int(r) == naive_target(wd, hour, minute, local as int),
        r matches Some(t) ==> local - DAY_MS < t && t < local + WEEK_MS,
{
    let shifted = (local - MIN_INSTANT_MS) as u64;
    let q = shifted / (DAY_MS as u64);
    let rem = shifted % (DAY_MS as u64);
    proof {
        vstd::arithmetic::div_mod::lemma_fundamental_div_mod(shifted as int, DAY_MS as int);
        assert(DAY_MS * q == q * DAY_MS) by (nonlinear_arith);
        lemma_day_of(local as int, q as int, rem as int);
    }
    let day = q as i64 + MIN_DAY;
    let current = ((q + 2) % 7) as i64;
    proof {
        assert(day + 3 == 7 * (-13780756) + (q + 2));
        vstd::arithmetic::div_mod::lemma_mod_multiples_vanish(-13780756, q + 2, 7);
        assert(current == weekday_index(day as int));
    }
    let want = wd.days_since_monday();
    let ahead = if want >= current {
        want - current
    } else {
        want + 7 - current
    };
    proof {
        if want >= current {
            vstd::arithmetic::div_mod::lemma_fundamental_div_mod_converse(
                want - current,
                7,
                0,
                want - current,
            );
        } else {
            vstd::arithmetic::div_mod::lemma_fundamental_div_mod_converse(
                want - current,
                7,
                -1,
                want + 7 - current,
            );
        }
        assert(ahead == days_until(day as int, wd));
    }
    let target_day = day + ahead;
    if target_day > MAX_DAY {
        return None;
    }
    proof {
        assert(day * DAY_MS <= local < day * DAY_MS + DAY_MS) by (nonlinear_arith)
            requires
                local - MIN_INSTANT_MS == q * DAY_MS + rem,
                0 <= rem < DAY_MS,
                day == q + MIN_DAY,
        ;
        assert(MIN_DAY * DAY_MS <= target_day * DAY_MS <= MAX_DAY * DAY_MS) by (nonlinear_arith)
            requires
                MIN_DAY <= target_day <= MAX_DAY,
        ;
        assert(target_day * DAY_MS == day * DAY_MS + ahead * DAY_MS) by (nonlinear_arith)
            requires
                target_day == day + ahead,
        ;
    }
    Some(target_day * DAY_MS + (hour as i64) * HOUR_MS + (minute as i64) * MINUTE_MS)
}

/// The "weekday + clock time" shape: "Sun 7:00 AM", "Reinicia dom 07:00",
/// read in a time zone `offset` milliseconds ahead of UTC. The countdown is
/// to the next occurrence: a target that is not after `now` is a week out.
pub fn parse_weekday_time_offset(text: &str, now: i64, offset: i64) -> (r: Option<i64>)
    requires
        valid_instant(now as int),
        -DAY_MS < offset < DAY_MS,
        weekday_time_in_range(text@, now as int, offset as int),
    ensures
        opt_int(r) == weekday_time_offset(text@, now as int, offset as int),
{
    let wd = match find_weekday(text) {
        Some(d) => d,
        None => {
            return None;
        },
    };
    let (hour, minute) = match find_clock_time(text) {
        Some(t) => t,
        None => {
            return None;
        },
    };
    let local = now + offset;
    let naive = match naive_target_exec(wd, hour, minute, local) {
        Some(t) => t,
        None => {
            return None;
        },
    };
    let target = naive - offset;
    if target < MIN_INSTANT_MS || target > MAX_INSTANT_MS {
        return None;
    }
    let target = if target <= now {
        target + WEEK_MS
    } else {
        target
    };
    Some(target - now)
}

/// The countdown from `now` to a reset at `target`: a target that is not
/// after `now` is a week out.
pub fn countdown_to(target: i64, now: i64) -> (r: i64)
    requires
        valid_instant(now as int),
        valid_instant(target as int),
        target <= now ==> valid_instant(target + WEEK_MS),
    ensures
        r == rolled(target as int, now as int) - now,
{
    let target = if target <= now {
        target + WEEK_MS
    } else {
        target
    };
    target - now
}

/// Whether `d` is a countdown from `now` to the instant at which the wall
/// clock of some zone (one that reads `now` within a day of UTC) shows the
/// next `hour:minute` on weekday `wd`.
pub open spec fn local_countdown(wd: Weekday, hour: u32, minute: u32, now: int, d: int) -> bool {
    exists|local: int, t: int|
        #![trigger naive_target(wd, hour, minute, local), rolled(t, now)]
        now - DAY_MS < local < now + DAY_MS && naive_target(wd, hour, minute, local) is Some
            && naive_target(wd, hour, minute, local)->Some_0 - DAY_MS < t
            && t < naive_target(wd, hour, minute, local)->Some_0 + DAY_MS
            && d == rolled(t, now) - now
}

/// The same reading in the machine's own time zone, which can shift between
/// `now` and the target. The machine's wall clock at `now` is handed to
/// `naive_target`; the instant at which the clock shows that reading decides
/// the countdown (`countdown_to`). Whether the zone has such an instant (a
/// reading skipped or repeated by a transition has none) is the machine's
/// and is not stated; only what holds in every zone is.
fn parse_weekday_time_offset_local(text: &str, now: i64) -> (r: Option<i64>)
    requires
        MIN_INSTANT_MS + 3 * DAY_MS <= now <= MAX_INSTANT_MS - 2 * WEEK_MS,
    ensures
        weekday_in(text@) is None || clock_in(text@) is None ==> r is None,
        r matches Some(d) ==> 0 < d && d < 9 * DAY_MS,
        r matches Some(d) ==> local_countdown(
            weekday_in(text@)->Some_0,
            clock_in(text@)->Some_0.0,
            clock_in(text@)->Some_0.1,
            now as int,
            d as int,
        ),
{
    let wd = match find_weekday(text) {
        Some(d) => d,
        None => {
            return None;
        },
    };
    let (hour, minute) = match find_clock_time(text) {
        Some(t) => t,
        None => {
            return None;
        },
    };
    let local = local_wall_clock_ms(now);
    let naive = match naive_target_exec(wd, hour, minute, local) {
        Some(t) => t,
        None => {
            return None;
        },
    };
    let target = match local_reading_to_instant(naive) {
        Some(t) => t,
        None => {
            return None;
        },
    };
    let d = countdown_to(target, now);
    proof {
        assert(naive_target(wd, hour, minute, local as int)->Some_0 == naive);
    }
    Some(d)
}

// ------------------------------------------------------------- reset text

/// The inputs on which resolving a reset text at `now` stays within the range
/// of a `TimeDelta` and of a `DateTime` whatever the machine's time zone.
pub open spec fn reset_text_safe(text: Seq<char>, now: int) -> bool {
    &&& relative_offset_fits(text)
    &&& match relative_offset(text) {
        Some(d) => valid_instant(now + d),
        None => weekday_in(text) is Some && clock_in(text) is Some ==> MIN_INSTANT_MS + 3 * DAY_MS
            <= now <= MAX_INSTANT_MS - 2 * WEEK_MS,
    }
}

/// Checks `reset_text_safe` for a caller that has to refuse the other inputs.
pub fn reset_text_is_safe(text: &str, now: i64) -> (r: bool)
    requires
        valid_instant(now as int),
    ensures
        r == reset_text_safe(text@, now as int),
{
    let p = scan_relative(text);
    if !parts_fit_exec(&p) {
        return false;
    }
    if p.found {
        let d = parse_relative_offset(text).unwrap();
        let t = (now as i128) + (d as i128);
        (MIN_INSTANT_MS as i128) <= t && t <= (MAX_INSTANT_MS as i128)
    } else if find_weekday(text).is_some() && find_clock_time(text).is_some() {
        MIN_INSTANT_MS + 3 * DAY_MS <= now && now <= MAX_INSTANT_MS - 2 * WEEK_MS
    } else {
        true
    }
}

/// What reading the reset text `text` at `now` may give: the relative
/// shape exactly; nothing for text with neither shape; for "weekday + clock
/// time", the countdown to the next time the machine's clock shows that
/// weekday and time (or nothing, where the zone skips or repeats it).
pub open spec fn reset_offset_reads(text: Seq<char>, now: int, r: Option<i64>) -> bool {
    &&& relative_offset(text) is Some ==> opt_int(r) == relative_offset(text)
    &&& relative_offset(text) is None && (weekday_in(text) is None || clock_in(text) is None)
        ==> r is None
    &&& relative_offset(text) is None ==> (r matches Some(d) ==> 0 < d && d < 9 * DAY_MS)
    &&& relative_offset(text) is None ==> (r matches Some(d) ==> local_countdown(
        weekday_in(text)->Some_0,
        clock_in(text)->Some_0.0,
        clock_in(text)->Some_0.1,
        now,
        d as int,
    ))
}

/// Parses free text like "Resets in 3 hr 43 min", "Resets in 6 days" or
/// "Resets Sun 7:00 AM" into an offset from `now`, in milliseconds: the
/// relative "N unit" shape first, then "weekday + clock time" in the
/// machine's time zone.
pub fn parse_reset_offset(text: &str, now: i64) -> (r: Option<i64>)
    requires
        valid_instant(now as int),
        reset_text_safe(text@, now as int),
    ensures
        reset_offset_reads(text@, now as int, r),
{
    match parse_relative_offset(text) {
        Some(d) => Some(d),
        None => {
            if find_weekday(text).is_none() || find_clock_time(text).is_none() {
                return None;
            }
            parse_weekday_time_offset_local(text, now)
        },
    }
}

/// What resolving a metric with `percent` and reset text `text` at `now` may
/// give: a parsed reset text yields an instant and no note, an unparsed one a
/// note and no instant; the relative shape, and text holding neither shape,
/// are determined exactly, and a "weekday + clock time" instant is the next
/// time the machine's clock shows that weekday and time.
pub open spec fn resolved_as(
    m: MetricSnapshot,
    percent: u8,
    text: Option<Seq<char>>,
    now: int,
) -> bool {
    &&& m.percent == percent
    &&& match text {
        None => m.reset_at is None && m.reset_note is None,
        Some(t) => match relative_offset(t) {
            Some(d) => m.reset_at == Some((now + d) as i64) && m.reset_note is None,
            None => if weekday_in(t) is None || clock_in(t) is None {
                m.reset_at is None && (m.reset_note matches Some(n) && n@ == t)
            } else {
                ||| (m.reset_at matches Some(at) && now < at < now + 9 * DAY_MS
                    && local_countdown(
                    weekday_in(t)->Some_0,
                    clock_in(t)->Some_0.0,
                    clock_in(t)->Some_0.1,
                    now,
                    at - now,
                ) && m.reset_note is None)
                ||| (m.reset_at is None && (m.reset_note matches Some(n) && n@ == t))
            },
        },
    }
}

pub open spec fn opt_view(o: Option<&str>) -> Option<Seq<char>> {
    match o {
        Some(s) => Some(s@),
        None => None,
    }
}

pub open spec fn text_safe(text: Option<Seq<char>>, now: int) -> bool {
    text matches Some(t) ==> reset_text_safe(t, now)
}

fn resolve_metric(percent: u8, reset_text: Option<&str>, now: i64) -> (m: MetricSnapshot)
    requires
        valid_instant(now as int),
        text_safe(opt_view(reset_text), now as int),
    ensures
        resolved_as(m, percent, opt_view(reset_text), now as int),
{
    let offset = match reset_text {
        Some(text) => parse_reset_offset(text, now),
        None => None,
    };
    match offset {
        Some(d) => MetricSnapshot { percent, reset_at: Some(now + d), reset_note: None },
        None => MetricSnapshot {
            percent,
            reset_at: None,
            reset_note: match reset_text {
                Some(t) => Some(String::from_str(t)),
                None => None,
            },
        },
    }
}

pub open spec fn string_view(o: Option<String>) -> Option<Seq<char>> {
    match o {
        Some(s) => Some(s@),
        None => None,
    }
}

/// Whether resolving `percent` and `text` at `now` gives `m` (or nothing, when
/// no percent was scraped).
pub open spec fn metric_from(
    m: Option<MetricSnapshot>,
    percent: Option<u8>,
    text: Option<Seq<char>>,
    now: int,
) -> bool {
    match percent {
        None => m is None,
        Some(p) => m matches Some(m) && resolved_as(m, p, text, now),
    }
}

/// The inputs on which `into_snapshot` stays within the range of the time
/// types: each reset text that accompanies a percent is safe to resolve.
pub open spec fn payload_safe(payload: UsageProbePayload, now: int) -> bool {
    &&& payload.session_percent is Some ==> text_safe(string_view(payload.session_reset_text), now)
    &&& payload.weekly_percent is Some ==> text_safe(string_view(payload.weekly_reset_text), now)
}

fn opt_as_str(o: &Option<String>) -> (r: Option<&str>)
    ensures
        opt_view(r) == string_view(*o),
{
    match o {
        Some(s) => Some(s.as_str()),
        None => None,
    }
}

/// What resolving `p` at `now` may give: an error exactly when neither
/// percent was scraped, otherwise a snapshot taken at `now` whose metrics
/// are each resolved from their own percent and reset text.
pub open spec fn snapshot_of(
    p: UsageProbePayload,
    now: int,
    r: Result<UsageSnapshot, String>,
) -> bool {
    &&& (r is Err) == (p.session_percent is None && p.weekly_percent is None)
    &&& r matches Err(e) ==> e@ == "no usage data found on the page"@
    &&& r matches Ok(s) ==> {
        &&& s.fetched_at == now
        &&& metric_from(s.session, p.session_percent, string_view(p.session_reset_text), now)
        &&& metric_from(s.weekly, p.weekly_percent, string_view(p.weekly_reset_text), now)
    }
}

impl UsageProbePayload {
    /// Checks `payload_safe` for a caller that has to refuse the other inputs.
    pub fn is_safe_at(&self, now: i64) -> (r: bool)
        requires
            valid_instant(now as int),
        ensures
            r == payload_safe(*self, now as int),
    {
        let session_ok = match (&self.session_percent, &self.session_reset_text) {
            (Some(_), Some(t)) => reset_text_is_safe(t.as_str(), now),
            _ => true,
        };
        let weekly_ok = match (&self.weekly_percent, &self.weekly_reset_text) {
            (Some(_), Some(t)) => reset_text_is_safe(t.as_str(), now),
            _ => true,
        };
        session_ok && weekly_ok
    }

    /// Resolves the scraped strings into a snapshot anchored at `now`. Each
    /// metric is resolved on its own; only when neither percent was scraped
    /// does this fail closed.
    pub fn into_snapshot(self, now: i64) -> (r: Result<UsageSnapshot, String>)
        requires
            valid_instant(now as int),
            payload_safe(self, now as int),
        ensures
            snapshot_of(self, now as int, r),
    {
        let session = match self.session_percent {
            Some(p) => Some(resolve_metric(p, opt_as_str(&self.session_reset_text), now)),
            None => None,
        };
        let weekly = match self.weekly_percent {
            Some(p) => Some(resolve_metric(p, opt_as_str(&self.weekly_reset_text), now)),
            None => None,
        };
        if session.is_none() && weekly.is_none() {
            return Err(String::from_str("no usage data found on the page"));
        }
        Ok(UsageSnapshot { session, weekly, fetched_at: now })
    }
}

// ------------------------------------------------------------- checked entry points

/// `parse_relative_offset`, or `None` where a span on the way to the total
/// would leave the range of a `TimeDelta`.
pub fn try_parse_relative_offset(text: &str) -> (r: Option<Option<i64>>)
    ensures
        r is Some == relative_offset_fits(text@),
        r matches Some(o) ==> opt_int(o) == relative_offset(text@),
{
    let p = scan_relative(text);
    if parts_fit_exec(&p) {
        Some(parse_relative_offset(text))
    } else {
        None
    }
}

/// `parse_reset_offset`, or `None` where resolving the text at `now` would
/// leave the range of the time types.
pub fn try_parse_reset_offset(text: &str, now: i64) -> (r: Option<Option<i64>>)
    requires
        valid_instant(now as int),
    ensures
        r is Some == reset_text_safe(text@, now as int),
        r matches Some(o) ==> reset_offset_reads(text@, now as int, o),
{
    if reset_text_is_safe(text, now) {
        Some(parse_reset_offset(text, now))
    } else {
        None
    }
}

/// Checks `weekday_time_in_range` for a caller that has to refuse the other
/// inputs.
pub fn weekday_time_is_in_range(text: &str, now: i64, offset: i64) -> (r: bool)
    requires
        valid_instant(now as int),
        -DAY_MS < offset < DAY_MS,
    ensures
        r == weekday_time_in_range(text@, now as int, offset as int),
{
    let wd = match find_weekday(text) {
        Some(d) => d,
        None => {
            return true;
        },
    };
    let (hour, minute) = match find_clock_time(text) {
        Some(t) => t,
        None => {
            return true;
        },
    };
    let local = now + offset;
    if local < MIN_INSTANT_MS || local > MAX_INSTANT_MS {
        return false;
    }
    match naive_target_exec(wd, hour, minute, local) {
        None => true,
        Some(naive) => {
            let target = naive - offset;
            if MIN_INSTANT_MS <= target && target <= MAX_INSTANT_MS && target <= now {
                target + WEEK_MS <= MAX_INSTANT_MS
            } else {
                true
            }
        },
    }
}

/// `parse_weekday_time_offset`, or `None` where the reading would leave the
/// range of a `DateTime`.
pub fn try_parse_weekday_time_offset(text: &str, now: i64, offset: i64) -> (r: Option<Option<i64>>)
    requires
        valid_instant(now as int),
        -DAY_MS < offset < DAY_MS,
    ensures
        r is Some == weekday_time_in_range(text@, now as int, offset as int),
        r matches Some(o) ==> opt_int(o) == weekday_time_offset(text@, now as int, offset as int),
{
    if weekday_time_is_in_range(text, now, offset) {
        Some(parse_weekday_time_offset(text, now, offset))
    } else {
        None
    }
}

impl UsageProbePayload {
    /// `into_snapshot`, or `None` where a reset text could not be resolved
    /// within the range of the time types.
    pub fn try_into_snapshot(self, now: i64) -> (r: Option<Result<UsageSnapshot, String>>)
        requires
            valid_instant(now as int),
        ensures
            r is Some == payload_safe(self, now as int),
            r matches Some(res) ==> snapshot_of(self, now as int, res),
    {
        if self.is_safe_at(now) {
            Some(self.into_snapshot(now))
        } else {
            None
        }
    }
}

// ------------------------------------------------------------- laws

proof fn lemma_clock_token_bounds(toks: Seq<Seq<char>>, i: int)
    requires
        0 <= i < toks.len(),
        clock_in_token(toks, i) is Some,
    ensures
        clock_in_token(toks, i)->Some_0.0 <= 23,
        clock_in_token(toks, i)->Some_0.1 <= 59,
{
}

proof fn lemma_first_clock_bounds(toks: Seq<Seq<char>>, i: int)
    requires
        first_clock(toks, i) is Some,
    ensures
        first_clock(toks, i)->Some_0.0 <= 23,
        first_clock(toks, i)->Some_0.1 <= 59,
    decreases toks.len() - i,
{
    if 0 <= i < toks.len() {
        if clock_in_token(toks, i) is Some {
            lemma_clock_token_bounds(toks, i);
        } else {
            lemma_first_clock_bounds(toks, i + 1);
        }
    }
}

/// A clock time read from text is a valid 24-hour time.
pub proof fn lemma_clock_time_is_valid(text: Seq<char>)
    requires
        clock_in(text) is Some,
    ensures
        clock_in(text)->Some_0.0 <= 23,
        clock_in(text)->Some_0.1 <= 59,
{
    lemma_first_clock_bounds(split_ws(text), 0);
}

/// The "weekday + clock time" countdown is always to the next occurrence:
/// strictly in the future and at most a week away.
pub proof fn lemma_weekday_countdown_within_a_week(text: Seq<char>, now: int, offset: int)
    requires
        -DAY_MS < offset < DAY_MS,
        weekday_time_offset(text, now, offset) is Some,
    ensures
        0 < weekday_time_offset(text, now, offset)->Some_0 <= WEEK_MS,
{
    let wd = weekday_in(text)->Some_0;
    let (hour, minute) = clock_in(text)->Some_0;
    lemma_clock_time_is_valid(text);
    let local = now + offset;
    let d0 = day_of(local);
    vstd::arithmetic::div_mod::lemma_fundamental_div_mod(local, DAY_MS as int);
    let r = local % (DAY_MS as int);
    assert(0 <= r < DAY_MS);
    assert(local == d0 * DAY_MS + r) by (nonlinear_arith)
        requires
            local == (DAY_MS as int) * (local / (DAY_MS as int)) + r,
            d0 == local / (DAY_MS as int),
    ;
    let k = days_until(d0, wd);
    assert(0 <= k < 7);
    let naive = (d0 + k) * DAY_MS + hour * HOUR_MS + minute * MINUTE_MS;
    assert(naive_target(wd, hour, minute, local) == Some(naive));
    assert(0 <= hour * HOUR_MS + minute * MINUTE_MS < DAY_MS) by (nonlinear_arith)
        requires
            hour <= 23,
            minute <= 59,
    ;
    assert(d0 * DAY_MS <= naive < d0 * DAY_MS + 7 * DAY_MS) by (nonlinear_arith)
        requires
            naive == (d0 + k) * DAY_MS + hour * HOUR_MS + minute * MINUTE_MS,
            0 <= k < 7,
            0 <= hour * HOUR_MS + minute * MINUTE_MS < DAY_MS,
    ;
}

/// Session and weekly are independent: a scraped percent always reaches the
/// snapshot, with or without a parseable reset text, whatever happened to
/// the other metric; the scrape fails only when neither percent was found.
pub proof fn lemma_one_metric_never_blanks_the_other(
    p: UsageProbePayload,
    now: int,
    r: Result<UsageSnapshot, String>,
)
    requires
        snapshot_of(p, now, r),
    ensures
        p.session_percent matches Some(pct) ==> (r matches Ok(s) && s.session matches Some(m)
            && m.percent == pct),
        p.weekly_percent matches Some(pct) ==> (r matches Ok(s) && s.weekly matches Some(m)
            && m.percent == pct),
        r is Err <==> p.session_percent is None && p.weekly_percent is None,
{
}

/// A token names the weekday its letters start with: "sun"/"dom" Sunday,
/// "mon"/"seg" Monday, "tue"/"ter" Tuesday, "wed"/"qua" Wednesday,
/// "thu"/"qui" Thursday, "fri"/"sex" Friday, "sat"/"sab"/"sáb" Saturday; and
/// a key with none of these prefixes names no day.
pub proof fn lemma_weekday_keys_name_their_day(key: Seq<char>)
    ensures
        "sun"@.is_prefix_of(key) || "dom"@.is_prefix_of(key) ==> weekday_of_key(key) == Some(
            Weekday::Sun,
        ),
        "mon"@.is_prefix_of(key) || "seg"@.is_prefix_of(key) ==> weekday_of_key(key) == Some(
            Weekday::Mon,
        ),
        "tue"@.is_prefix_of(key) || "ter"@.is_prefix_of(key) ==> weekday_of_key(key) == Some(
            Weekday::Tue,
        ),
        "wed"@.is_prefix_of(key) || "qua"@.is_prefix_of(key) ==> weekday_of_key(key) == Some(
            Weekday::Wed,
        ),
        "thu"@.is_prefix_of(key) || "qui"@.is_prefix_of(key) ==> weekday_of_key(key) == Some(
            Weekday::Thu,
        ),
        "fri"@.is_prefix_of(key) || "sex"@.is_prefix_of(key) ==> weekday_of_key(key) == Some(
            Weekday::Fri,
        ),
        "sat"@.is_prefix_of(key) || "sab"@.is_prefix_of(key) || "sáb"@.is_prefix_of(key)
            ==> weekday_of_key(key) == Some(Weekday::Sat),
        weekday_of_key(key) is Some ==> key.len() >= 3,
{
    reveal_strlit("sun");
    reveal_strlit("dom");
    reveal_strlit("mon");
    reveal_strlit("seg");
    reveal_strlit("tue");
    reveal_strlit("ter");
    reveal_strlit("wed");
    reveal_strlit("qua");
    reveal_strlit("thu");
    reveal_strlit("qui");
    reveal_strlit("fri");
    reveal_strlit("sex");
    reveal_strlit("sat");
    reveal_strlit("sab");
    reveal_strlit("sáb");
    lemma_prefix3("sun"@, key);
    lemma_prefix3("dom"@, key);
    lemma_prefix3("mon"@, key);
    lemma_prefix3("seg"@, key);
    lemma_prefix3("tue"@, key);
    lemma_prefix3("ter"@, key);
    lemma_prefix3("wed"@, key);
    lemma_prefix3("qua"@, key);
    lemma_prefix3("thu"@, key);
    lemma_prefix3("qui"@, key);
    lemma_prefix3("fri"@, key);
    lemma_prefix3("sex"@, key);
    lemma_prefix3("sat"@, key);
    lemma_prefix3("sab"@, key);
    lemma_prefix3("sáb"@, key);
}

/// A three-letter prefix is a match of the first three letters.
proof fn lemma_prefix3(p: Seq<char>, key: Seq<char>)
    requires
        p.len() == 3,
    ensures
        p.is_prefix_of(key) <==> (key.len() >= 3 && key[0] == p[0] && key[1] == p[1] && key[2]
            == p[2]),
{
    if key.len() >= 3 && key[0] == p[0] && key[1] == p[1] && key[2] == p[2] {
        assert(p =~= key.subrange(0, 3));
    }
    if p.is_prefix_of(key) {
        assert(key.subrange(0, 3)[0] == key[0]);
        assert(key.subrange(0, 3)[1] == key[1]);
        assert(key.subrange(0, 3)[2] == key[2]);
    }
}

/// A "weekday + clock time" reset falls on the weekday the text names, at
/// the clock time it names: read in the zone `offset` ahead of UTC, the
/// instant `now + d` lies on a day whose weekday is the named one, and its
/// time of day is the named hour and minute.
pub proof fn lemma_weekday_reset_falls_on_the_named_day(text: Seq<char>, now: int, offset: int)
    requires
        weekday_time_offset(text, now, offset) is Some,
    ensures
        ({
            let d = weekday_time_offset(text, now, offset)->Some_0;
            let local = now + offset + d;
            &&& weekday_index(day_of(local)) == weekday_in(text)->Some_0.index()
            &&& local - day_of(local) * DAY_MS == clock_in(text)->Some_0.0 * HOUR_MS
                + clock_in(text)->Some_0.1 * MINUTE_MS
        }),
{
    let wd = weekday_in(text)->Some_0;
    let (hour, minute) = clock_in(text)->Some_0;
    lemma_clock_time_is_valid(text);
    let d0 = day_of(now + offset);
    let k = days_until(d0, wd);
    let hm = hour * HOUR_MS + minute * MINUTE_MS;
    assert(0 <= hm < DAY_MS) by (nonlinear_arith)
        requires
            hour <= 23,
            minute <= 59,
            hm == hour * HOUR_MS + minute * MINUTE_MS,
    ;
    let naive = (d0 + k) * DAY_MS + hm;
    assert(naive_target(wd, hour, minute, now + offset) == Some(naive));
    let target = naive - offset;
    let d = weekday_time_offset(text, now, offset)->Some_0;
    let local = now + offset + d;
    // The local reading is the naive target, or a week after it.
    let day = if target <= now { d0 + k + 7 } else { d0 + k };
    assert(local == day * DAY_MS + hm) by (nonlinear_arith)
        requires
            local == (if target <= now { target + WEEK_MS } else { target }) + offset,
            target == naive - offset,
            naive == (d0 + k) * DAY_MS + hm,
            day == (if target <= now { d0 + k + 7 } else { d0 + k }),
    ;
    vstd::arithmetic::div_mod::lemma_fundamental_div_mod_converse(local, DAY_MS as int, day, hm);
    assert(day_of(local) == day);
    // Counting `k` days from `d0` lands on `wd`; a week more changes nothing.
    let i0 = weekday_index(d0);
    assert(0 <= i0 < 7);
    assert(0 <= wd.index() < 7);
    if wd.index() >= i0 {
        vstd::arithmetic::div_mod::lemma_fundamental_div_mod_converse(wd.index() - i0, 7, 0, wd.index() - i0);
    } else {
        vstd::arithmetic::div_mod::lemma_fundamental_div_mod_converse(wd.index() - i0, 7, -1, wd.index() - i0 + 7);
    }
    assert(k == (if wd.index() >= i0 { wd.index() - i0 } else { wd.index() - i0 + 7 }));
    vstd::arithmetic::div_mod::lemma_fundamental_div_mod(d0 + 3, 7);
    let q = (d0 + 3) / 7;
    assert(d0 + 3 == 7 * q + i0);
    let extra: int = if target <= now { 1 } else { 0 };
    let q2: int = q + extra + (if wd.index() >= i0 { 0int } else { 1int });
    assert(day + 3 == 7 * q2 + wd.index());
    vstd::arithmetic::div_mod::lemma_fundamental_div_mod_converse(day + 3, 7, q2, wd.index());
}

} // verus!
