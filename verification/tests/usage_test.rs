use chrono::{Datelike, Local, TimeZone, Timelike, Utc};
use pongllm::time::{DAY_MS, HOUR_MS, MINUTE_MS, WEEK_MS};
use pongllm::usage::{
    countdown_to, find_clock_time, find_weekday, parse_relative_offset, parse_reset_offset,
    parse_weekday_time_offset, reset_text_is_safe, try_parse_relative_offset, try_parse_reset_offset,
    try_parse_weekday_time_offset, weekday_time_is_in_range, UsageProbePayload, Weekday,
};

fn offset(text: &str) -> Option<i64> {
    parse_reset_offset(text, now_ms())
}

fn at(y: i32, mo: u32, d: u32, h: u32, mi: u32, s: u32) -> i64 {
    Utc.with_ymd_and_hms(y, mo, d, h, mi, s)
        .unwrap()
        .timestamp_millis()
}

#[test]
fn parses_english_hours_and_minutes() {
    assert_eq!(offset("Resets in 3 hr 43 min"), Some(3 * HOUR_MS + 43 * MINUTE_MS));
}

#[test]
fn parses_portuguese_hours_and_minutes() {
    assert_eq!(offset("Reinicia em 3 h 48 min"), Some(3 * HOUR_MS + 48 * MINUTE_MS));
}

#[test]
fn parses_minutes_only() {
    assert_eq!(offset("Resets in 45 min"), Some(45 * MINUTE_MS));
}

#[test]
fn parses_days_only_english() {
    assert_eq!(offset("Resets in 6 days"), Some(6 * DAY_MS));
}

#[test]
fn parses_days_only_portuguese() {
    assert_eq!(offset("Reinicia em 6 dias"), Some(6 * DAY_MS));
}

#[test]
fn parses_days_combined_with_hours() {
    assert_eq!(offset("Resets in 1 day 4 hr"), Some(DAY_MS + 4 * HOUR_MS));
}

#[test]
fn parses_weeks_only_english() {
    assert_eq!(offset("Resets in 1 week"), Some(WEEK_MS));
}

#[test]
fn parses_weeks_only_portuguese() {
    assert_eq!(offset("Reinicia em 1 semana"), Some(WEEK_MS));
}

#[test]
fn returns_none_for_text_without_a_number() {
    assert_eq!(offset("You haven't used Fable yet"), None);
}

#[test]
fn parses_weekday_and_time_pinned_to_utc() {
    let now = at(2026, 7, 15, 12, 0, 0);
    let got = parse_weekday_time_offset("Resets Sun 7:00 AM", now, 0).unwrap();
    assert_eq!(now + got, at(2026, 7, 19, 7, 0, 0));
}

#[test]
fn rolls_over_a_week_when_todays_weekday_matches_but_the_time_already_passed() {
    let now = at(2026, 7, 19, 8, 0, 0);
    let got = parse_weekday_time_offset("Resets Sun 7:00 AM", now, 0).unwrap();
    assert_eq!(now + got, at(2026, 7, 26, 7, 0, 0));
}

#[test]
fn parses_weekday_and_24_hour_time_portuguese() {
    let now = at(2026, 7, 15, 12, 0, 0);
    let got = parse_weekday_time_offset("Reinicia dom 07:00", now, 0).unwrap();
    assert_eq!(now + got, at(2026, 7, 19, 7, 0, 0));
}

#[test]
fn parses_pm_times() {
    let now = at(2026, 7, 15, 12, 0, 0);
    let got = parse_weekday_time_offset("Resets Wed 3:30 PM", now, 0).unwrap();
    assert_eq!(now + got, at(2026, 7, 15, 15, 30, 0));
}

#[test]
fn reads_the_clock_in_the_given_zone() {
    // 12:00 UTC is 09:00 at UTC-3; "Wed 10:00" there is 13:00 UTC.
    let now = at(2026, 7, 15, 12, 0, 0);
    let got = parse_weekday_time_offset("Reinicia qua 10:00", now, -3 * HOUR_MS).unwrap();
    assert_eq!(now + got, at(2026, 7, 15, 13, 0, 0));
}

#[test]
fn a_weekday_without_a_time_is_not_a_reset_time() {
    assert_eq!(parse_weekday_time_offset("Resets Sunday", at(2026, 7, 15, 12, 0, 0), 0), None);
}

#[test]
fn builds_a_snapshot_from_a_complete_payload() {
    let now = now_ms();
    let payload = UsageProbePayload {
        session_percent: Some(26),
        session_reset_text: Some("Resets in 3 hr 43 min".into()),
        weekly_percent: Some(40),
        weekly_reset_text: Some("Resets in 7 hr 23 min".into()),
        logged_out: false,
        nonce: 1,
    };

    let snapshot = payload.into_snapshot(now).unwrap();
    let session = snapshot.session.unwrap();
    let weekly = snapshot.weekly.unwrap();
    assert_eq!(session.percent, 26);
    assert_eq!(weekly.percent, 40);
    assert_eq!(session.reset_at, Some(now + 3 * HOUR_MS + 43 * MINUTE_MS));
    assert_eq!(snapshot.fetched_at, now);
}

#[test]
fn a_metric_with_no_parseable_reset_text_still_reports_its_percent() {
    let now = now_ms();
    let payload = UsageProbePayload {
        session_percent: Some(26),
        session_reset_text: Some("Resets in 3 hr 43 min".into()),
        weekly_percent: Some(40),
        weekly_reset_text: Some("Resets next month".into()),
        logged_out: false,
        nonce: 1,
    };

    let snapshot = payload.into_snapshot(now).unwrap();
    let weekly = snapshot.weekly.unwrap();
    assert_eq!(weekly.percent, 40);
    assert_eq!(weekly.reset_at, None);
    assert_eq!(weekly.reset_note.as_deref(), Some("Resets next month"));
    assert!(snapshot.session.unwrap().reset_at.is_some());
}

#[test]
fn one_missing_metric_does_not_blank_the_other() {
    let payload = UsageProbePayload {
        session_percent: Some(26),
        session_reset_text: Some("Resets in 3 hr 43 min".into()),
        weekly_percent: None,
        weekly_reset_text: None,
        logged_out: false,
        nonce: 1,
    };

    let snapshot = payload.into_snapshot(now_ms()).unwrap();
    assert!(snapshot.session.is_some());
    assert!(snapshot.weekly.is_none());
}

#[test]
fn fails_only_when_neither_metric_could_be_scraped() {
    let payload = UsageProbePayload {
        session_percent: None,
        session_reset_text: None,
        weekly_percent: None,
        weekly_reset_text: None,
        logged_out: false,
        nonce: 1,
    };

    assert_eq!(
        payload.into_snapshot(now_ms()).unwrap_err(),
        "no usage data found on the page"
    );
}

#[test]
fn the_last_value_seen_for_a_unit_wins() {
    assert_eq!(parse_relative_offset("2 h then 5 hours"), Some(5 * HOUR_MS));
    assert_eq!(parse_relative_offset("+3 min"), Some(3 * MINUTE_MS));
    assert_eq!(parse_relative_offset("-2 dias"), Some(-2 * DAY_MS));
    assert_eq!(parse_relative_offset("3"), None);
}

#[test]
fn weekday_names_match_by_prefix_in_either_language() {
    assert_eq!(find_weekday("Resets Sunday"), Some(Weekday::Sun));
    assert_eq!(find_weekday("reinicia SEG"), Some(Weekday::Mon));
    assert_eq!(find_weekday("sáb."), Some(Weekday::Sat));
    assert_eq!(find_weekday("soon"), None);
}

#[test]
fn clock_times_honour_am_and_pm() {
    assert_eq!(find_clock_time("12:05 AM"), Some((0, 5)));
    assert_eq!(find_clock_time("12:05 PM"), Some((12, 5)));
    assert_eq!(find_clock_time("11:59 pm"), Some((23, 59)));
    // A marker glued to the digits starts with the digits, not with "pm".
    assert_eq!(find_clock_time("11:59pm"), Some((11, 59)));
    assert_eq!(find_clock_time("24:00"), None);
    assert_eq!(find_clock_time("7:00:00"), None);
}

#[test]
fn oversized_offsets_are_flagged_before_resolving() {
    let now = now_ms();
    assert!(reset_text_is_safe("Resets in 3 hr", now));
    assert!(!reset_text_is_safe("Resets in 99999999999999999 weeks", now));
}

fn now_ms() -> i64 {
    chrono::Utc::now().timestamp_millis()
}

#[test]
fn weekday_reset_text_is_read_on_the_machine_clock() {
    let now = at(2026, 7, 15, 12, 0, 0);
    let got = parse_reset_offset("Resets Sun 7:00 AM", now).unwrap();
    // The instant the offset points at reads Sunday 07:00 on this machine.
    let target = Local.timestamp_millis_opt(now + got).unwrap();
    assert_eq!(target.weekday(), chrono::Weekday::Sun);
    assert_eq!((target.hour(), target.minute()), (7, 0));
    assert!(got > 0 && got <= WEEK_MS);
}

#[test]
fn a_passed_reset_instant_counts_down_to_next_week() {
    let now = at(2026, 7, 19, 8, 0, 0);
    assert_eq!(countdown_to(at(2026, 7, 19, 7, 0, 0), now), WEEK_MS - HOUR_MS);
    assert_eq!(countdown_to(now, now), WEEK_MS);
    assert_eq!(countdown_to(at(2026, 7, 19, 9, 0, 0), now), HOUR_MS);
}

#[test]
fn the_checked_readers_refuse_only_out_of_range_texts() {
    assert_eq!(try_parse_relative_offset("Resets in 2 hr"), Some(Some(2 * HOUR_MS)));
    assert_eq!(try_parse_relative_offset("Resets in 99999999999999999 weeks"), None);
    let now = at(2026, 7, 15, 12, 0, 0);
    assert_eq!(try_parse_reset_offset("Resets in 45 min", now), Some(Some(45 * MINUTE_MS)));
    assert_eq!(try_parse_reset_offset("Resets next month", now), Some(None));
    assert_eq!(try_parse_reset_offset("Resets in 99999999999999999 weeks", now), None);
}

#[test]
fn the_checked_weekday_reader_agrees_in_range() {
    let now = at(2026, 7, 15, 12, 0, 0);
    assert!(weekday_time_is_in_range("Resets Sun 7:00 AM", now, 0));
    assert_eq!(
        try_parse_weekday_time_offset("Resets Sun 7:00 AM", now, 0),
        Some(parse_weekday_time_offset("Resets Sun 7:00 AM", now, 0))
    );
}

#[test]
fn a_payload_with_an_unresolvable_reset_text_is_refused() {
    let now = at(2026, 7, 15, 12, 0, 0);
    let bad = UsageProbePayload {
        session_percent: Some(10),
        session_reset_text: Some("Resets in 99999999999999999 weeks".to_string()),
        weekly_percent: None,
        weekly_reset_text: None,
        logged_out: false,
        nonce: 1,
    };
    assert!(bad.try_into_snapshot(now).is_none());
    let good = UsageProbePayload {
        session_percent: Some(10),
        session_reset_text: Some("Resets in 1 hr".to_string()),
        weekly_percent: None,
        weekly_reset_text: None,
        logged_out: false,
        nonce: 1,
    };
    let snap = good.try_into_snapshot(now).unwrap().unwrap();
    assert_eq!(snap.session.unwrap().reset_at, Some(now + HOUR_MS));
}
