use pongllm::config::{
    autostart_action, plan_config_change, AutostartAction, Cleanup, Config, ConfigError, CronChange,
    Interaction, Selectors,
};
use std::str::FromStr;
use pongllm::tray::{anchor_position, checked_anchor_position};

fn with_cron(cron: &str) -> Config {
    Config { cron: cron.to_string(), ..Config::default() }
}

fn with_target(url: &str) -> Config {
    Config { target_url: url.to_string(), ..Config::default() }
}

#[test]
fn cron_is_disabled_by_default() {
    let cfg = Config::default();
    assert!(!cfg.cron_enabled);
}

#[test]
fn default_cron_is_weekday_mornings_and_parses() {
    let cfg = Config::default();
    assert_eq!(cfg.cron, "0 0 5 * * Mon-Fri");
    assert!(cron::Schedule::from_str(&cfg.cron).is_ok());
}

#[test]
fn defaults_to_probe_only_so_a_fresh_install_never_types() {
    let cfg = Config::default();
    assert_eq!(cfg.interaction, Interaction::ProbeOnly);
    assert_eq!(cfg.target_url, "https://github.com/login");
}

#[test]
fn default_text_input_matches_both_plain_and_rich_editors() {
    let cfg = Config::default();
    assert!(cfg.selectors.text_input.contains("textarea"));
    assert!(cfg.selectors.text_input.contains("contenteditable"));
}

#[test]
fn applies_defaults_for_omitted_fields() {
    let cfg = Config::default();
    assert_eq!(cfg.target_url, "https://github.com/login");
    assert_eq!(cfg.payload, "ping");
    assert_eq!(cfg.settle_ms, 3000);
    assert!(!cfg.cron.is_empty());
    assert!(!cfg.selectors.authenticated.is_empty());
}

#[test]
fn the_defaults_pass_validation() {
    assert_eq!(Config::default().validate(), Ok(()));
}

#[test]
fn action_button_is_optional() {
    let cfg = Config {
        selectors: Selectors {
            authenticated: "#main".to_string(),
            login_indicator: "#login".to_string(),
            action_button: None,
            text_input: "textarea".to_string(),
            submit_button: None,
            response: None,
        },
        ..Config::default()
    };
    assert_eq!(cfg.validate(), Ok(()));
    assert_eq!(cfg.selectors.action_button, None);
}

#[test]
fn rejects_malformed_cron_expression() {
    let err = with_cron("not a cron").validate().expect_err("malformed cron must be rejected");
    assert!(matches!(err, ConfigError::Cron { .. }), "got {err:?}");
}

#[test]
fn rejects_cron_with_too_few_fields() {
    let err = with_cron("*/5 * * *").validate().expect_err("4-field cron must be rejected");
    assert!(matches!(err, ConfigError::Cron { .. }), "got {err:?}");
}

#[test]
fn a_cron_error_names_the_expression() {
    let err = with_cron("nope").validate().unwrap_err();
    match err {
        ConfigError::Cron { expr, .. } => assert_eq!(expr, "nope"),
        other => panic!("got {other:?}"),
    }
}

#[test]
fn rejects_non_http_target_url() {
    let err = with_target("file:///etc/passwd")
        .validate()
        .expect_err("non-http scheme must be rejected");
    assert!(matches!(err, ConfigError::Url { .. }), "got {err:?}");
}

#[test]
fn a_non_http_scheme_is_named_in_the_reason() {
    let err = with_target("ftp://example.com/").validate().unwrap_err();
    assert_eq!(
        err,
        ConfigError::Url {
            url: "ftp://example.com/".to_string(),
            reason: "scheme `ftp` is not http/https".to_string(),
        }
    );
}

#[test]
fn rejects_unparseable_target_url() {
    let err = with_target("not-a-url").validate().expect_err("garbage URL must be rejected");
    assert!(matches!(err, ConfigError::Url { .. }), "got {err:?}");
}

#[test]
fn plain_http_targets_are_accepted() {
    assert_eq!(with_target("http://localhost:8080/health").validate(), Ok(()));
}

#[test]
fn rejects_empty_required_selector() {
    let cfg = Config {
        selectors: Selectors {
            authenticated: "".to_string(),
            login_indicator: "#login".to_string(),
            action_button: None,
            text_input: "textarea".to_string(),
            submit_button: None,
            response: None,
        },
        ..Config::default()
    };
    let err = cfg.validate().expect_err("empty selector must be rejected");
    assert!(
        matches!(err, ConfigError::EmptySelector { ref field } if field == "authenticated"),
        "got {err:?}"
    );
}

#[test]
fn a_blank_login_indicator_is_rejected() {
    let mut cfg = Config::default();
    cfg.selectors.login_indicator = " \t".to_string();
    assert_eq!(
        cfg.validate(),
        Err(ConfigError::EmptySelector { field: "login_indicator".to_string() })
    );
}

#[test]
fn submit_button_is_optional_and_defaults_to_none() {
    assert_eq!(Config::default().selectors.submit_button, None);
}

#[test]
fn submit_button_can_be_configured() {
    let mut cfg = Config::default();
    cfg.selectors.submit_button = Some("button[type=submit]".to_string());
    assert_eq!(cfg.validate(), Ok(()));
    assert_eq!(cfg.selectors.submit_button.as_deref(), Some("button[type=submit]"));
}

#[test]
fn rejects_an_empty_submit_button_selector() {
    let mut cfg = Config::default();
    cfg.selectors.submit_button = Some("  ".to_string());
    let err = cfg.validate().expect_err("blank selector must be rejected");
    assert!(
        matches!(err, ConfigError::EmptySelector { ref field } if field == "submit_button"),
        "got {err:?}"
    );
}

#[test]
fn response_is_optional_and_defaults_to_none() {
    assert_eq!(Config::default().selectors.response, None);
}

#[test]
fn response_can_be_configured() {
    let mut cfg = Config::default();
    cfg.selectors.response = Some(r##"[data-testid="assistant-message"]"##.to_string());
    assert_eq!(cfg.validate(), Ok(()));
    assert_eq!(
        cfg.selectors.response.as_deref(),
        Some(r##"[data-testid="assistant-message"]"##)
    );
}

#[test]
fn rejects_an_empty_response_selector() {
    let mut cfg = Config::default();
    cfg.selectors.response = Some("  ".to_string());
    let err = cfg.validate().expect_err("blank selector must be rejected");
    assert!(
        matches!(err, ConfigError::EmptySelector { ref field } if field == "response"),
        "got {err:?}"
    );
}

#[test]
fn cleanup_is_optional_and_defaults_to_unconfigured() {
    let cfg = Config::default();
    assert_eq!(cfg.cleanup.menu_button, None);
    assert_eq!(cfg.cleanup.delete_option, None);
    assert_eq!(cfg.cleanup.confirm_button, None);
    assert!(!cfg.cleanup.is_configured());
}

#[test]
fn cleanup_can_be_partially_configured() {
    let cfg = Config {
        cleanup: Cleanup {
            menu_button: None,
            delete_option: Some(r##"[data-testid="delete-chat-trigger"]"##.to_string()),
            confirm_button: None,
        },
        ..Config::default()
    };
    assert_eq!(cfg.cleanup.menu_button, None);
    assert_eq!(
        cfg.cleanup.delete_option.as_deref(),
        Some(r##"[data-testid="delete-chat-trigger"]"##)
    );
    assert!(cfg.cleanup.is_configured());
    assert_eq!(cfg.validate(), Ok(()));
}

#[test]
fn rejects_an_empty_cleanup_selector() {
    let mut cfg = Config::default();
    cfg.cleanup.menu_button = Some("  ".to_string());
    let err = cfg.validate().expect_err("blank selector must be rejected");
    assert!(
        matches!(err, ConfigError::EmptySelector { ref field } if field == "cleanup.menu_button"),
        "got {err:?}"
    );
}

#[test]
fn a_blank_confirm_button_is_named_with_its_section() {
    let mut cfg = Config::default();
    cfg.cleanup.confirm_button = Some(String::new());
    assert_eq!(
        cfg.validate(),
        Err(ConfigError::EmptySelector { field: "cleanup.confirm_button".to_string() })
    );
}

#[test]
fn usage_url_is_optional_and_defaults_to_none() {
    assert_eq!(Config::default().usage_url, None);
}

#[test]
fn usage_url_can_be_configured() {
    let mut cfg = Config::default();
    cfg.usage_url = Some("https://dash.internal/settings/usage".to_string());
    assert_eq!(cfg.validate(), Ok(()));
    assert_eq!(cfg.usage_url.as_deref(), Some("https://dash.internal/settings/usage"));
}

#[test]
fn rejects_a_non_http_usage_url() {
    let mut cfg = Config::default();
    cfg.usage_url = Some("file:///etc/passwd".to_string());
    let err = cfg.validate().expect_err("non-http usage_url must be rejected");
    assert!(matches!(err, ConfigError::Url { .. }), "got {err:?}");
}

#[test]
fn element_timeout_defaults_to_ten_seconds() {
    assert_eq!(Config::default().element_timeout_ms, 10_000);
}

#[test]
fn rejects_an_absurd_element_timeout() {
    let cfg = Config { element_timeout_ms: 900_000, ..Config::default() };
    let err = cfg.validate().expect_err("above the ceiling");
    assert!(matches!(err, ConfigError::OutOfRange { ref field, .. } if field == "element_timeout_ms"));
}

#[test]
fn rejects_absurd_settle_window() {
    let cfg = Config { settle_ms: 600_000, ..Config::default() };
    let err = cfg.validate().expect_err("settle_ms above the ceiling must be rejected");
    assert!(matches!(err, ConfigError::OutOfRange { ref field, .. } if field == "settle_ms"));
}

#[test]
fn range_errors_carry_the_bounds_and_the_value() {
    let cfg = Config { typing_delay_ms: 2_001, ..Config::default() };
    assert_eq!(
        cfg.validate(),
        Err(ConfigError::OutOfRange {
            field: "typing_delay_ms".to_string(),
            min: 0,
            max: 2_000,
            value: 2_001,
        })
    );
    let at_ceiling = Config { typing_delay_ms: 2_000, ..Config::default() };
    assert_eq!(at_ceiling.validate(), Ok(()));
}

#[test]
fn the_cron_is_checked_before_the_url() {
    let cfg = Config {
        cron: "bad".to_string(),
        target_url: "file:///x".to_string(),
        ..Config::default()
    };
    assert!(matches!(cfg.validate(), Err(ConfigError::Cron { .. })));
}

#[test]
fn an_unchanged_config_plans_nothing() {
    let a = Config::default();
    let b = Config::default();
    let change = plan_config_change(&a, &b);
    assert!(!change.navigate);
    assert_eq!(change.cron, CronChange::Keep);
    assert_eq!(change.autostart, None);
}

#[test]
fn a_new_target_navigates() {
    let a = Config::default();
    let b = with_target("https://dash.internal/login");
    assert!(plan_config_change(&a, &b).navigate);
}

#[test]
fn enabling_the_cron_installs_it_and_disabling_tears_it_down() {
    let off = Config::default();
    let on = Config { cron_enabled: true, ..Config::default() };
    assert_eq!(plan_config_change(&off, &on).cron, CronChange::Install);
    assert_eq!(plan_config_change(&on, &off).cron, CronChange::Uninstall);
}

#[test]
fn a_new_schedule_is_installed_only_while_enabled() {
    let on = Config { cron_enabled: true, ..Config::default() };
    let on_new = Config { cron_enabled: true, cron: "0 */15 * * * *".to_string(), ..Config::default() };
    assert_eq!(plan_config_change(&on, &on_new).cron, CronChange::Install);
    let off_new = Config { cron: "0 */15 * * * *".to_string(), ..Config::default() };
    assert_eq!(plan_config_change(&Config::default(), &off_new).cron, CronChange::Uninstall);
}

#[test]
fn toggling_autostart_is_planned_with_the_new_value() {
    let a = Config::default();
    let b = Config { autostart_enabled: !a.autostart_enabled, ..Config::default() };
    assert_eq!(plan_config_change(&a, &b).autostart, Some(b.autostart_enabled));
}

#[test]
fn autostart_is_touched_only_when_it_disagrees() {
    assert_eq!(autostart_action(true, false), AutostartAction::Enable);
    assert_eq!(autostart_action(false, true), AutostartAction::Disable);
    assert_eq!(autostart_action(true, true), AutostartAction::Nothing);
    assert_eq!(autostart_action(false, false), AutostartAction::Nothing);
}

#[test]
fn the_popover_is_centred_under_the_icon() {
    assert_eq!(anchor_position(1000, 0, 40, 24, 360), (840, 24));
}

#[test]
fn the_popover_never_spills_off_the_left_edge() {
    assert_eq!(anchor_position(10, 0, 20, 22, 360), (0, 22));
}

#[test]
fn the_popover_never_spills_off_the_top_edge() {
    assert_eq!(anchor_position(500, -100, 20, 22, 100), (460, 0));
}

#[test]
fn the_checked_placement_agrees_where_the_pixels_fit() {
    assert_eq!(checked_anchor_position(1000, 0, 40, 24, 360), Some((840, 24)));
}

#[test]
fn the_checked_placement_refuses_overflowing_pixels() {
    assert_eq!(checked_anchor_position(i32::MAX, 0, 40, 24, 10), None);
    assert_eq!(checked_anchor_position(0, i32::MAX, 40, 24, 10), None);
}
