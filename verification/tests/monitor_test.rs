use pongllm::config::{Cleanup, Config, Interaction, Selectors};
use pongllm::health::{Phase, ProbePayload, Verdict};
use pongllm::monitor::{
    after_heartbeat, check_budget, check_busy, checked_budget, decide_after_heartbeat,
    missing_webview_report, relogin_poll, try_interpret_usage_payload, interpret_usage_payload,
    is_confirmed_authenticated, relogin_check, report_from_heartbeat, report_from_probe,
    should_notify, tooltip_for, usage_timeout_ms, AfterHeartbeat, Next, ProbeError,
    ReloginCheck, ScrapeOutcome, FIXED_OVERHEAD_MS,
};

use pongllm::usage::UsageProbePayload;

fn usage_payload(over: UsageProbePayload) -> UsageProbePayload {
    over
}

#[test]
fn a_logged_out_payload_is_flagged_before_the_percentages_are_even_looked_at() {
    let payload = usage_payload(UsageProbePayload {
        logged_out: true,
        session_percent: Some(50),
        session_reset_text: Some("Resets in 1 hr".into()),
        weekly_percent: Some(50),
        weekly_reset_text: Some("Resets in 1 hr".into()),
        nonce: 1,
    });

    assert_eq!(
        interpret_usage_payload(payload, now_ms()),
        ScrapeOutcome::LoggedOut
    );
}

#[test]
fn a_normal_payload_resolves_to_a_snapshot() {
    let payload = usage_payload(UsageProbePayload {
        logged_out: false,
        session_percent: Some(26),
        session_reset_text: Some("Resets in 3 hr 43 min".into()),
        weekly_percent: Some(40),
        weekly_reset_text: Some("Resets in 7 hr 23 min".into()),
        nonce: 1,
    });

    match interpret_usage_payload(payload, now_ms()) {
        ScrapeOutcome::Done(Ok(snapshot)) => {
            assert_eq!(snapshot.session.unwrap().percent, 26);
            assert_eq!(snapshot.weekly.unwrap().percent, 40);
        }
        other => panic!("expected a resolved snapshot, got {other:?}"),
    }
}

#[test]
fn one_metric_missing_still_resolves_to_a_snapshot_with_the_other() {
    let payload = usage_payload(UsageProbePayload {
        logged_out: false,
        session_percent: Some(26),
        session_reset_text: Some("Resets in 3 hr 43 min".into()),
        weekly_percent: None,
        weekly_reset_text: None,
        nonce: 1,
    });

    match interpret_usage_payload(payload, now_ms()) {
        ScrapeOutcome::Done(Ok(snapshot)) => {
            assert_eq!(snapshot.session.unwrap().percent, 26);
            assert!(snapshot.weekly.is_none());
        }
        other => panic!("expected a partial snapshot, got {other:?}"),
    }
}

#[test]
fn a_payload_with_neither_metric_scraped_and_not_logged_out_still_fails_closed() {
    let payload = usage_payload(UsageProbePayload {
        logged_out: false,
        session_percent: None,
        session_reset_text: None,
        weekly_percent: None,
        weekly_reset_text: None,
        nonce: 1,
    });

    match interpret_usage_payload(payload, now_ms()) {
        ScrapeOutcome::Done(Err(_)) => {}
        other => panic!("expected a scrape failure, got {other:?}"),
    }
}

fn config_with(payload: &str, typing_delay_ms: u64, settle_ms: u64) -> Config {
    Config {
        payload: payload.into(),
        typing_delay_ms,
        settle_ms,
        ..Config::default()
    }
}

#[test]
fn budget_covers_typing_plus_settle_plus_element_wait_plus_overhead() {
    let cfg = config_with("ping", 100, 3000);
    assert_eq!(check_budget(&cfg), 3400 + 10_000 + FIXED_OVERHEAD_MS as u128);
}

#[test]
fn budget_handles_an_empty_payload() {
    let cfg = config_with("", 60, 0);
    assert_eq!(check_budget(&cfg), 10_000 + FIXED_OVERHEAD_MS as u128);
}

#[test]
fn budget_counts_unicode_characters_not_bytes() {
    let cfg = config_with("héllo", 10, 0);
    assert_eq!(check_budget(&cfg), 50 + 10_000 + FIXED_OVERHEAD_MS as u128);
}

#[test]
fn budget_doubles_the_element_wait_when_a_response_selector_is_configured() {
    let cfg = Config {
        element_timeout_ms: 5000,
        selectors: Selectors {
            response: Some(".reply".into()),
            ..Selectors::default()
        },
        ..config_with("", 60, 0)
    };
    assert_eq!(check_budget(&cfg), 10_000 + FIXED_OVERHEAD_MS as u128);
}

#[test]
fn budget_adds_one_wait_pass_per_configured_cleanup_step() {
    let cfg = Config {
        element_timeout_ms: 5000,
        cleanup: Cleanup {
            menu_button: Some("a".into()),
            delete_option: Some("b".into()),
            confirm_button: Some("c".into()),
        },
        ..config_with("", 60, 0)
    };
    assert_eq!(check_budget(&cfg), 20_000 + FIXED_OVERHEAD_MS as u128);
}

#[test]
fn budget_saturates_the_typing_time() {
    let cfg = Config {
        typing_delay_ms: u64::MAX,
        element_timeout_ms: 0,
        ..config_with("ab", 0, 0)
    };
    assert_eq!(check_budget(&cfg), u64::MAX as u128 + FIXED_OVERHEAD_MS as u128);
}

#[test]
fn the_checked_budget_agrees_where_the_waits_fit() {
    let cfg = config_with("ping", 100, 3000);
    assert_eq!(checked_budget(&cfg), Some(check_budget(&cfg)));
}

#[test]
fn the_checked_budget_refuses_waits_beyond_u64() {
    let cfg = Config {
        typing_delay_ms: u64::MAX,
        settle_ms: 1,
        ..config_with("ab", 0, 0)
    };
    assert_eq!(checked_budget(&cfg), None);
}

#[test]
fn usage_wait_is_the_element_timeout_plus_overhead() {
    assert_eq!(usage_timeout_ms(&Config::default()), 12_000);
}

fn payload(code: u16) -> ProbePayload {
    ProbePayload {
        code,
        detail: "detail".into(),
        latency_ms: 42,
        nonce: 1,
    }
}

#[test]
fn heartbeat_proceeds_when_authenticated() {
    assert_eq!(decide_after_heartbeat(Ok(payload(200))), Next::Proceed);
}

#[test]
fn heartbeat_proceeds_even_when_markers_are_missing() {
    assert_eq!(decide_after_heartbeat(Ok(payload(503))), Next::Proceed);
}

#[test]
fn heartbeat_aborts_on_a_login_screen() {
    match decide_after_heartbeat(Ok(payload(401))) {
        Next::Abort(report) => {
            assert_eq!(report.code, 401);
            assert_eq!(report.verdict, Verdict::Unauthorized);
            assert_eq!(report.latency_ms, 42);
        }
        Next::Proceed => panic!("a login screen must abort the check"),
    }
}

#[test]
fn heartbeat_aborts_on_timeout() {
    match decide_after_heartbeat(Err(ProbeError::Timeout)) {
        Next::Abort(report) => {
            assert_eq!(report.code, 408);
            assert_eq!(report.verdict, Verdict::Degraded);
        }
        Next::Proceed => panic!("a timeout must abort the check"),
    }
}

#[test]
fn heartbeat_aborts_when_injection_fails() {
    match decide_after_heartbeat(Err(ProbeError::Eval("no webview".into()))) {
        Next::Abort(report) => {
            assert_eq!(report.code, 0);
            assert_eq!(report.verdict, Verdict::Unreachable);
            assert!(report.detail.contains("no webview"), "{}", report.detail);
        }
        Next::Proceed => panic!("a failed eval must abort the check"),
    }
}

#[test]
fn confirmed_authenticated_requires_exactly_200() {
    assert!(is_confirmed_authenticated(&Ok(payload(200))));
}

#[test]
fn confirmed_authenticated_rejects_the_2fa_case_that_broke_this() {
    assert!(!is_confirmed_authenticated(&Ok(payload(503))));
}

#[test]
fn confirmed_authenticated_rejects_a_login_screen() {
    assert!(!is_confirmed_authenticated(&Ok(payload(401))));
}

#[test]
fn confirmed_authenticated_rejects_a_timeout_or_eval_failure() {
    assert!(!is_confirmed_authenticated(&Err(ProbeError::Timeout)));
    assert!(!is_confirmed_authenticated(&Err(ProbeError::Eval(
        "no webview".into()
    ))));
}

#[test]
fn report_from_heartbeat_labels_the_503_case_explicitly() {
    let report = report_from_heartbeat(Ok(payload(503)));
    assert_eq!(report.code, 503);
    assert!(report.detail.contains("neither"), "{}", report.detail);
}

#[test]
fn report_mirrors_a_successful_probe() {
    let report = report_from_probe(Ok(payload(200)), 20_000);
    assert_eq!(report.code, 200);
    assert_eq!(report.verdict, Verdict::Healthy);
    assert_eq!(report.latency_ms, 42);
}

#[test]
fn report_uses_the_budget_as_latency_on_timeout() {
    let budget = 20_000;
    let report = report_from_probe(Err(ProbeError::Timeout), budget);
    assert_eq!(report.code, 408);
    assert_eq!(report.latency_ms, 20_000);
}

#[test]
fn report_marks_a_failed_injection_unreachable() {
    let report = report_from_probe(Err(ProbeError::Eval("boom".into())), 0);
    assert_eq!(report.verdict, Verdict::Unreachable);
}

#[test]
fn a_failed_injection_names_the_error() {
    let report = report_from_probe(Err(ProbeError::Eval("boom".into())), 0);
    assert_eq!(report.detail, "injection failed: boom");
    assert_eq!(report.code, 0);
}

#[test]
fn notifies_only_on_the_transition_into_unauthorized() {
    assert!(should_notify(true, false, true), "first 401 should notify");
    assert!(
        !should_notify(true, true, true),
        "a dashboard left logged out must not nag every tick"
    );
    assert!(
        !should_notify(false, false, true),
        "a healthy check is silent"
    );
    assert!(!should_notify(true, false, false), "respects the opt-out");
}

#[test]
fn tooltip_reports_checking_while_pinging() {
    let t = tooltip_for(Phase::Pinging, Some(Verdict::Healthy), Some(90));
    assert!(t.contains("checking"), "{t}");
}

#[test]
fn tooltip_surfaces_an_expired_session() {
    let t = tooltip_for(Phase::Error, Some(Verdict::Unauthorized), Some(60));
    assert!(t.contains("session expired"), "{t}");
    assert!(t.contains("1m 00s"), "{t}");
}

#[test]
fn tooltip_without_history_reads_idle() {
    let t = tooltip_for(Phase::Ready, None, None);
    assert_eq!(t, "Pong — idle");
}

#[test]
fn tooltip_reads_in_full() {
    assert_eq!(
        tooltip_for(Phase::Ready, Some(Verdict::Degraded), Some(3 * 3600 + 4 * 60)),
        "Pong — degraded · next in 3h 04m"
    );
    assert_eq!(
        tooltip_for(Phase::Error, Some(Verdict::Unreachable), None),
        "Pong — unreachable"
    );
}

#[test]
fn probe_only_stops_after_the_heartbeat_with_its_code() {
    match after_heartbeat(Interaction::ProbeOnly, Ok(payload(200))) {
        AfterHeartbeat::Finish(report) => {
            assert_eq!(report.code, 200);
            assert_eq!(report.detail, "session alive (probe only)");
            assert_eq!(report.latency_ms, 0);
        }
        AfterHeartbeat::Interact => panic!("probe-only must never drive the page"),
    }
}

#[test]
fn full_interaction_goes_on_after_a_live_heartbeat() {
    assert_eq!(
        after_heartbeat(Interaction::Full, Ok(payload(503))),
        AfterHeartbeat::Interact
    );
    match after_heartbeat(Interaction::Full, Ok(payload(401))) {
        AfterHeartbeat::Finish(report) => assert_eq!(report.code, 401),
        AfterHeartbeat::Interact => panic!("a login screen must stop the check"),
    }
}

#[test]
fn relogin_is_confirmed_only_by_a_200() {
    match relogin_check(Ok(payload(200))) {
        ReloginCheck::SignedIn(report) => {
            assert_eq!(report.code, 200);
            assert_eq!(report.detail, "signed in — resuming monitoring");
        }
        other => panic!("expected a confirmed sign-in, got {other:?}"),
    }
    match relogin_check(Ok(payload(503))) {
        ReloginCheck::StillSignedOut { report, message } => {
            assert_eq!(report.code, 503);
            assert_eq!(
                message,
                "still not signed in — neither auth nor login marker found"
            );
        }
        other => panic!("expected the recovery UI to stay up, got {other:?}"),
    }
}

fn now_ms() -> i64 {
    chrono::Utc::now().timestamp_millis()
}

#[test]
fn a_background_poll_publishes_only_a_confirmed_sign_in() {
    let signed_in = relogin_poll(Ok(payload(200))).expect("a 200 confirms the session");
    assert_eq!(signed_in.code, 200);
    assert_eq!(signed_in.detail, "signed in — resuming monitoring");
    assert!(relogin_poll(Ok(payload(503))).is_none());
    assert!(relogin_poll(Err(ProbeError::Timeout)).is_none());
}

#[test]
fn a_missing_webview_is_reported_unreachable() {
    let r = missing_webview_report();
    assert_eq!(r.code, 0);
    assert_eq!(r.verdict, Verdict::Unreachable);
    assert_eq!(r.detail, "monitor webview is not running");
    assert_eq!(check_busy(), "a check is currently running — try again in a moment");
}

#[test]
fn the_checked_interpreter_refuses_only_unresolvable_payloads() {
    let logged_out = usage_payload(UsageProbePayload {
        session_percent: Some(50),
        session_reset_text: Some("Resets in 99999999999999999 weeks".to_string()),
        weekly_percent: None,
        weekly_reset_text: None,
        logged_out: true,
        nonce: 1,
    });
    assert_eq!(try_interpret_usage_payload(logged_out, now_ms()), Some(ScrapeOutcome::LoggedOut));
    let unresolvable = usage_payload(UsageProbePayload {
        session_percent: Some(50),
        session_reset_text: Some("Resets in 99999999999999999 weeks".to_string()),
        weekly_percent: None,
        weekly_reset_text: None,
        logged_out: false,
        nonce: 1,
    });
    assert_eq!(try_interpret_usage_payload(unresolvable, now_ms()), None);
}
