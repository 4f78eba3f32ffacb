use pongllm::config::Config;
use pongllm::health::{HealthReport, Phase, Verdict};
use pongllm::monitor::ScrapeOutcome;
use pongllm::state::{AppState, HISTORY_LIMIT};
use pongllm::usage::UsageSnapshot;

fn state() -> AppState<u32> {
    AppState::new(Config::default(), "/tmp/pongllm-test.json".to_string())
}

fn report(code: u16, detail: &str, latency_ms: u64) -> HealthReport {
    HealthReport::new(code, detail.to_string(), latency_ms)
}

#[test]
fn starts_ready_with_no_history() {
    let s = state();
    assert_eq!(s.phase(), Phase::Ready);
    assert!(!s.needs_relogin());
    assert!(s.snapshot().last_report.is_none());
}

#[test]
fn nonces_are_unique_and_increasing() {
    let mut s = state();
    let a = s.next_nonce();
    let b = s.next_nonce();
    assert!(b > a, "{b} should follow {a}");
}

#[test]
fn recording_an_unauthorized_report_raises_the_relogin_flag() {
    let mut s = state();
    s.record_report(report(401, "login screen", 20));

    assert_eq!(s.phase(), Phase::Error);
    assert!(s.needs_relogin());
    let snap = s.snapshot();
    assert_eq!(snap.last_report.unwrap().verdict, Verdict::Unauthorized);
    assert!(snap.needs_relogin);
}

#[test]
fn a_healthy_report_clears_the_relogin_flag() {
    let mut s = state();
    s.record_report(report(401, "login screen", 20));
    s.record_report(report(200, "responded", 500));

    assert_eq!(s.phase(), Phase::Ready);
    assert!(!s.needs_relogin());
}

#[test]
fn a_report_reaches_its_waiting_probe() {
    let mut s = state();
    let nonce = s.next_nonce();
    s.expect_report(nonce, 7);
    assert_eq!(s.resolve_report(nonce), Some(7));
    assert_eq!(s.resolve_report(nonce), None, "a waiter is handed out once");
}

#[test]
fn stale_reports_are_dropped() {
    let mut s = state();
    let nonce = s.next_nonce();
    s.expect_report(nonce, 1);

    let delivered = s.resolve_report(nonce + 999);
    assert!(delivered.is_none(), "an unknown nonce must not resolve any waiter");
}

#[test]
fn forgetting_a_probe_prevents_later_delivery() {
    let mut s = state();
    let nonce = s.next_nonce();
    s.expect_report(nonce, 1);
    s.forget_report(nonce);

    assert!(s.resolve_report(nonce).is_none());
}

#[test]
fn only_one_check_may_run_at_a_time() {
    let mut s = state();
    let first = s.try_begin_check().expect("first caller wins");
    assert!(
        s.try_begin_check().is_none(),
        "second caller must be turned away"
    );

    s.end_check(first);
    assert!(
        s.try_begin_check().is_some(),
        "slot frees once the guard is handed back"
    );
}

#[test]
fn history_records_checks_newest_first() {
    let mut s = state();
    s.record_report(report(200, "first", 10));
    s.record_report(report(401, "second", 20));

    let history = s.history();
    assert_eq!(history.len(), 2);
    assert_eq!(history[0].detail, "second", "newest entry should lead");
    assert_eq!(history[1].detail, "first");
}

#[test]
fn history_is_bounded() {
    let mut s = state();
    for i in 0..(HISTORY_LIMIT + 25) {
        s.record_report(HealthReport::new(200, format!("check {i}"), 1));
    }

    let history = s.history();
    assert_eq!(history.len(), HISTORY_LIMIT, "must not grow without bound");
    assert_eq!(history[0].detail, format!("check {}", HISTORY_LIMIT + 24));
}

#[test]
fn history_starts_empty() {
    assert!(state().history().is_empty());
}

#[test]
fn snapshot_projects_the_schedule() {
    let s = state();
    let snap = s.snapshot();
    assert!(
        snap.next_run_unix.is_some(),
        "default cron must be schedulable"
    );
    assert!(snap.seconds_until_next.unwrap() <= 3 * 24 * 3600);
    assert_eq!(snap.target_url, Config::default().target_url);
}

#[test]
fn snapshot_at_a_fixed_time_counts_down_to_the_given_run() {
    let s = state();
    let snap = s.snapshot_at(1_000_000, Some(1_030_500));
    assert_eq!(snap.next_run_unix, Some(1_030));
    assert_eq!(snap.seconds_until_next, Some(30));
    assert!(!snap.dashboard_visible);
}

#[test]
fn finishing_notifies_once_per_expiry() {
    let mut s = state();
    let first = s.finish(report(401, "login", 1));
    assert!(first.notify && first.show_popover);
    let second = s.finish(report(401, "login", 1));
    assert!(!second.notify && !second.show_popover, "no nagging on every tick");
    let healthy = s.finish(report(200, "ok", 1));
    assert!(!healthy.notify && !healthy.show_popover);
    let again = s.finish(report(403, "login", 1));
    assert!(again.notify, "a new expiry notifies again");
}

#[test]
fn finishing_respects_the_notification_opt_out() {
    let cfg = Config {
        notifications_enabled: false,
        ..Config::default()
    };
    let mut s: AppState<u32> = AppState::new(cfg, String::new());
    let effects = s.finish(report(401, "login", 1));
    assert!(!effects.notify);
    assert!(effects.show_popover, "the recovery UI still appears");
}

#[test]
fn nonces_wrap_around_like_an_atomic_counter() {
    let mut s = state();
    let first = s.next_nonce();
    assert_eq!(first, 1);
    assert_eq!(s.next_nonce(), 2);
}

#[test]
fn usage_results_lead_a_bounded_history() {
    let mut s = state();
    s.record_usage_result(Err("session expired".to_string()), 5, 100);
    let snapshot = UsageSnapshot {
        session: None,
        weekly: None,
        fetched_at: 200,
    };
    s.record_usage_result(Ok(snapshot), 6, 200);
    let history = s.usage_history();
    assert_eq!(history.len(), 2);
    assert!(history[0].ok);
    assert_eq!(history[1].detail, "session expired");
    assert_eq!(s.usage_snapshot().as_ref().unwrap().fetched_at, 200);
    for i in 0..(HISTORY_LIMIT + 3) {
        s.record_usage_result(Err(format!("e{i}")), 1, i as i64);
    }
    assert_eq!(s.usage_history().len(), HISTORY_LIMIT);
}

#[test]
fn usage_waiters_are_kept_apart_from_check_waiters() {
    let mut s = state();
    s.expect_usage_report(5, 50);
    assert!(s.resolve_report(5).is_none());
    assert_eq!(s.resolve_usage_report(5), Some(50));
    s.expect_usage_report(6, 60);
    s.forget_usage_report(6);
    assert!(s.resolve_usage_report(6).is_none());
}

#[test]
fn a_report_reaches_the_waiting_probe() {
    let (tx, rx) = std::sync::mpsc::channel::<u16>();
    let mut s: AppState<std::sync::mpsc::Sender<u16>> =
        AppState::new(Config::default(), "/tmp/pongllm-test.json".to_string());
    let nonce = s.next_nonce();
    s.expect_report(nonce, tx);

    let delivered = s.resolve_report(nonce);
    assert!(delivered.is_some());
    delivered.unwrap().send(200).unwrap();
    assert_eq!(rx.recv().unwrap(), 200);
    assert!(s.resolve_report(nonce).is_none(), "a report is delivered once");
}

#[test]
fn a_quarter_hour_schedule_is_never_more_than_fifteen_minutes_away() {
    let cfg = Config { cron: "0 */15 * * * *".to_string(), ..Config::default() };
    let s: AppState<u32> = AppState::new(cfg, "/tmp/pongllm-test.json".to_string());
    let snap = s.snapshot();
    assert!(snap.next_run_unix.is_some());
    assert!(snap.seconds_until_next.unwrap() <= 15 * 60);
}

#[test]
fn a_fresh_state_drops_any_report() {
    let mut s = state();
    assert!(s.resolve_report(1).is_none());
    assert!(s.resolve_usage_report(1).is_none());
}

#[test]
fn a_busy_slot_is_answered_with_a_message() {
    let mut s = state();
    let guard = s.claim_check().expect("the slot is free");
    assert_eq!(
        s.claim_check().err(),
        Some("a check is currently running — try again in a moment".to_string())
    );
    s.end_check(guard);
    assert!(s.claim_check().is_ok());
}

#[test]
fn beginning_a_health_check_shows_it_running_and_a_refused_one_changes_nothing() {
    let mut s = state();
    s.record_report(report(200, "ok", 5));
    let guard = s.begin_health_check().expect("the slot is free");
    assert_eq!(s.phase(), Phase::Pinging);
    s.set_phase(Phase::Error);
    assert!(s.begin_health_check().is_none());
    assert_eq!(s.phase(), Phase::Error);
    assert_eq!(s.history().len(), 1);
    s.end_check(guard);
}

#[test]
fn a_logged_out_scrape_is_a_usage_error_and_an_expired_session() {
    let mut s = state();
    let effects = s.record_usage_outcome(ScrapeOutcome::LoggedOut, 40, 1_000).expect("published");
    assert!(effects.show_popover);
    assert!(s.needs_relogin());
    let entry = &s.usage_history()[0];
    assert!(!entry.ok);
    assert_eq!(entry.detail, "session expired");
    let last = s.snapshot().last_report.unwrap();
    assert_eq!(last.code, 401);
    assert_eq!(last.detail, "session expired (seen during usage check)");
    assert_eq!(last.latency_ms, 40);
}

#[test]
fn a_failed_scrape_is_only_recorded() {
    let mut s = state();
    let effects = s.record_usage_outcome(ScrapeOutcome::Done(Err("usage scrape timed out".into())), 7, 1_000);
    assert!(effects.is_none());
    assert!(!s.needs_relogin());
    assert!(s.history().is_empty());
    assert_eq!(s.usage_history()[0].detail, "usage scrape timed out");
}

#[test]
fn handing_the_guard_back_frees_the_slot_after_an_early_exit() {
    fn bail_out_early(s: &mut AppState<u32>) -> Result<(), String> {
        let guard = s.claim_check()?;
        // The check gives up before doing any work; the guard goes back.
        s.end_check(guard);
        Err("gave up".to_string())
    }
    let mut s = state();
    assert!(bail_out_early(&mut s).is_err());
    assert!(s.try_begin_check().is_some(), "end_check must free the slot");
}
