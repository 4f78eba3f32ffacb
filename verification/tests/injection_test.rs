use pongllm::config::{Cleanup, Config, Selectors};
use pongllm::injection::{
    build_check_call, build_heartbeat_call, build_usage_call, params_to_json, InjectionParams,
};

fn params_with(payload: &str, text_input: &str) -> InjectionParams {
    InjectionParams {
        expected_host: "dash.internal".into(),
        selectors: Selectors {
            authenticated: "#dashboard-main".into(),
            login_indicator: "input[type=password]".into(),
            action_button: None,
            text_input: text_input.into(),
            submit_button: None,
            response: None,
        },
        cleanup: Cleanup::default(),
        payload: payload.into(),
        settle_ms: 3000,
        typing_delay_ms: 60,
        element_timeout_ms: 10_000,
        nonce: 42,
    }
}

#[test]
fn check_call_targets_run_check() {
    let js = build_check_call(&params_with("ping", "textarea"));
    assert!(js.contains("window.__PONG__.runCheck(p)"), "{js}");
}

#[test]
fn heartbeat_call_targets_heartbeat() {
    let js = build_heartbeat_call(&params_with("ping", "textarea"));
    assert!(js.contains("window.__PONG__.heartbeat(p)"), "{js}");
}

#[test]
fn carries_the_nonce_for_correlation() {
    let js = build_check_call(&params_with("ping", "textarea"));
    assert!(js.contains("\"nonce\":42"), "{js}");
}

#[test]
fn escapes_quotes_in_the_payload() {
    let js = build_check_call(&params_with("say \"hi\"", "textarea"));
    assert!(!js.contains("say \"hi\""), "{js}");
    assert!(js.contains(r#"say \"hi\""#), "{js}");
}

#[test]
fn escapes_backslashes_and_newlines() {
    let js = build_check_call(&params_with("a\\b\nc", "textarea"));
    assert!(js.contains(r"a\\b\nc"), "{js}");
    assert!(
        !js.contains('\n'),
        "no literal newline may leak into the eval"
    );
}

#[test]
fn escapes_selectors_containing_quotes() {
    let js = build_check_call(&params_with("ping", "textarea[data-x=\"y\"]"));
    assert!(js.contains(r#"textarea[data-x=\"y\"]"#), "{js}");
}

#[test]
fn omits_action_button_when_unset() {
    let js = build_check_call(&params_with("ping", "textarea"));
    assert!(js.contains("\"action_button\":null"), "{js}");
}

#[test]
fn includes_action_button_when_set() {
    let mut p = params_with("ping", "textarea");
    p.selectors.action_button = Some("#new-chat".into());
    let js = build_check_call(&p);
    assert!(js.contains(r##""action_button":"#new-chat""##), "{js}");
}

#[test]
fn omits_response_when_unset() {
    let js = build_check_call(&params_with("ping", "textarea"));
    assert!(js.contains("\"response\":null"), "{js}");
}

#[test]
fn includes_response_when_set() {
    let mut p = params_with("ping", "textarea");
    p.selectors.response = Some("[data-testid=\"assistant-message\"]".into());
    let js = build_check_call(&p);
    assert!(
        js.contains(r#""response":"[data-testid=\"assistant-message\"]""#),
        "{js}"
    );
}

#[test]
fn omits_cleanup_fields_when_unset() {
    let js = build_check_call(&params_with("ping", "textarea"));
    assert!(
        js.contains(
            r#""cleanup":{"menu_button":null,"delete_option":null,"confirm_button":null}"#
        ),
        "{js}"
    );
}

#[test]
fn includes_cleanup_fields_when_set() {
    let mut p = params_with("ping", "textarea");
    p.cleanup = Cleanup {
        menu_button: Some("[data-testid=\"page-header\"] button".into()),
        delete_option: Some("[data-testid=\"delete-chat-trigger\"]".into()),
        confirm_button: Some(".text-on-danger".into()),
    };
    let js = build_check_call(&p);
    assert!(
        js.contains(r#""delete_option":"[data-testid=\"delete-chat-trigger\"]""#),
        "{js}"
    );
    assert!(js.contains(r#""confirm_button":".text-on-danger""#), "{js}");
}

#[test]
fn falls_back_to_reporting_when_agent_is_missing() {
    let js = build_check_call(&params_with("ping", "textarea"));
    assert!(js.contains("probe agent not installed"), "{js}");
    assert!(js.contains("code:0"), "{js}");
}

#[test]
fn usage_call_targets_scrape_usage() {
    let js = build_usage_call(7);
    assert!(js.contains("window.__PONG__.scrapeUsage(p)"), "{js}");
    assert!(js.contains("nonce:7"), "{js}");
}

#[test]
fn usage_call_falls_back_to_reporting_when_agent_is_missing() {
    let js = build_usage_call(1);
    assert!(js.contains("report_usage"), "{js}");
    assert!(js.contains("session_percent:null"), "{js}");
}

#[test]
fn carries_the_target_host_so_the_agent_can_refuse_other_origins() {
    let cfg = Config {
        target_url: "https://dash.internal/app".into(),
        ..Config::default()
    };
    assert!(cfg.validate().is_ok());
    let params = InjectionParams::from_config(&cfg, 1);
    assert_eq!(params.expected_host, "dash.internal");

    let js = build_check_call(&params);
    assert!(js.contains(r#""expected_host":"dash.internal""#), "{js}");
}

#[test]
fn host_is_empty_when_the_url_cannot_be_parsed() {
    let cfg = Config {
        target_url: "::not a url::".into(),
        ..Config::default()
    };
    assert_eq!(InjectionParams::from_config(&cfg, 1).expected_host, "");
}

#[test]
fn built_from_config_mirrors_the_config_values() {
    let cfg = Config {
        payload: "hello".into(),
        settle_ms: 1500,
        ..Config::default()
    };
    assert!(cfg.validate().is_ok());
    let params = InjectionParams::from_config(&cfg, 7);
    assert_eq!(params.payload, "hello");
    assert_eq!(params.settle_ms, 1500);
    assert_eq!(params.nonce, 7);
    assert_eq!(params.selectors, cfg.selectors);
}

#[test]
fn params_serialize_in_declaration_order() {
    let json = params_to_json(&params_with("ping", "textarea"));
    assert_eq!(
        json,
        r##"{"expected_host":"dash.internal","selectors":{"authenticated":"#dashboard-main","login_indicator":"input[type=password]","action_button":null,"text_input":"textarea","submit_button":null,"response":null},"cleanup":{"menu_button":null,"delete_option":null,"confirm_button":null},"payload":"ping","settle_ms":3000,"typing_delay_ms":60,"element_timeout_ms":10000,"nonce":42}"##
    );
}

#[test]
fn control_characters_are_escaped_as_unicode() {
    let json = params_to_json(&params_with("a\u{1}b\tc", "textarea"));
    assert!(json.contains(r#""payload":"a\u0001b\tc""#), "{json}");
}

#[test]
fn check_call_wraps_the_params_exactly() {
    let p = params_with("ping", "textarea");
    let js = build_heartbeat_call(&p);
    let expected = format!(
        "(function(){{var p={};if(window.__PONG__){{window.__PONG__.heartbeat(p);}}else{{try{{window.__TAURI_INTERNALS__.invoke('report_health',{{payload:{{code:0,detail:'probe agent not installed',latency_ms:0,nonce:p.nonce}}}});}}catch(e){{}}}}}})()",
        params_to_json(&p)
    );
    assert_eq!(js, expected);
}
