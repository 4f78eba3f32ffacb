use pongllm::health::{HealthReport, Phase, Verdict};

#[test]
fn maps_success_codes_to_healthy() {
    assert_eq!(Verdict::from_code(200), Verdict::Healthy);
    assert_eq!(Verdict::from_code(204), Verdict::Healthy);
}

#[test]
fn maps_auth_codes_to_unauthorized() {
    assert_eq!(Verdict::from_code(401), Verdict::Unauthorized);
    assert_eq!(Verdict::from_code(403), Verdict::Unauthorized);
}

#[test]
fn maps_timeout_and_server_errors_to_degraded() {
    assert_eq!(Verdict::from_code(408), Verdict::Degraded);
    assert_eq!(Verdict::from_code(503), Verdict::Degraded);
}

#[test]
fn maps_unknown_codes_to_unreachable() {
    assert_eq!(Verdict::from_code(0), Verdict::Unreachable);
    assert_eq!(Verdict::from_code(302), Verdict::Unreachable);
}

#[test]
fn only_unauthorized_triggers_relogin() {
    assert!(Verdict::Unauthorized.needs_relogin());
    assert!(!Verdict::Healthy.needs_relogin());
    assert!(!Verdict::Degraded.needs_relogin());
    assert!(!Verdict::Unreachable.needs_relogin());
}

#[test]
fn healthy_report_returns_to_ready_phase() {
    let report = HealthReport::new(200, "dashboard responded".to_string(), 812);
    assert_eq!(report.verdict, Verdict::Healthy);
    assert_eq!(report.phase(), Phase::Ready);
}

#[test]
fn failing_report_moves_to_error_phase() {
    assert_eq!(HealthReport::new(401, "login".to_string(), 12).phase(), Phase::Error);
    assert_eq!(
        HealthReport::new(503, "no marker".to_string(), 12).phase(),
        Phase::Error
    );
}

#[test]
fn verdict_boundaries_follow_the_http_ranges() {
    assert_eq!(Verdict::from_code(199), Verdict::Unreachable);
    assert_eq!(Verdict::from_code(299), Verdict::Healthy);
    assert_eq!(Verdict::from_code(300), Verdict::Unreachable);
    assert_eq!(Verdict::from_code(402), Verdict::Unreachable);
    assert_eq!(Verdict::from_code(500), Verdict::Degraded);
    assert_eq!(Verdict::from_code(599), Verdict::Degraded);
    assert_eq!(Verdict::from_code(600), Verdict::Unreachable);
}

#[test]
fn a_report_keeps_its_fields_and_is_stamped_now() {
    let before = chrono::Utc::now().timestamp_millis();
    let report = HealthReport::new(408, "slow".to_string(), 77);
    let after = chrono::Utc::now().timestamp_millis();
    assert_eq!(report.code, 408);
    assert_eq!(report.detail, "slow");
    assert_eq!(report.latency_ms, 77);
    assert!(before <= report.at && report.at <= after);
}
