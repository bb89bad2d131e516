use subbar::{
    placement_step, refresh_wait_step, BarUse, MinimaxReply, ModelUsage, PlacementStep, QuotaStep,
    RefreshStep, Settings,
};

#[test]
fn api_keys_are_validated_and_routed() {
    let mut s = Settings::new();
    let w = s.set_api_key("  sk-comkey123  ", "com").expect("valid key is stored");
    assert_eq!((w.service, w.user, w.value.as_str()), ("subbar-minimax", "subbar", "sk-comkey123"));
    assert_eq!(s.endpoint(), "com");
    let w = s.set_api_key("sk-iokey4567", "io").expect("valid key is stored");
    assert_eq!(w.service, "subbar-minimaxi");
    assert_eq!(s.endpoint(), "io");
    assert_eq!(s.get_api_key("io", Some(true)), "sk-iokey4567");
    assert_eq!(s.get_api_key("com", Some(true)), "sk-comkey123");
    assert_eq!(s.get_api_key("com", None), "[REDACTED]");
    s.set_api_key("sk-longer-com-key", "com").expect("valid key is stored");
    assert_eq!(s.get_api_key("com", None), "sk-l...-key");
    s.set_api_key("sk-comkey123", "com").expect("valid key is stored");
    s.set_api_key("sk-iokey4567", "io").expect("valid key is stored");
    assert_eq!(s.get_api_key("ocg", Some(true)), "");
    // refused: wrong prefix, too short, too long, ocg, unknown endpoint
    assert!(s.set_api_key("abc-123456", "com").is_none());
    assert!(s.set_api_key("sk-", "com").is_none());
    assert!(s.set_api_key(&format!("sk-{}", "x".repeat(254)), "com").is_none());
    assert!(s.set_api_key("sk-okokok", "ocg").is_none());
    assert!(s.set_api_key("sk-okokok", "eu").is_none());
    assert_eq!(s.get_api_key("com", Some(true)), "sk-comkey123");
    assert_eq!(s.endpoint(), "io");
    // an empty key clears the stored one
    let w = s.set_api_key("  ", "com").expect("clearing is allowed");
    assert_eq!(w.value, "");
    assert_eq!(s.get_api_key("com", Some(false)), "");
}

#[test]
fn ocg_credentials_are_trimmed_and_masked() {
    let mut s = Settings::new();
    let (ws, ck) = s.set_ocg_credentials(" wrk_0123456789 ", "Fe26.2**cookie-value\n");
    assert_eq!((ws.service, ws.value.as_str()), ("subbar-ocg-ws", "wrk_0123456789"));
    assert_eq!((ck.service, ck.value.as_str()), ("subbar-ocg-cookie", "Fe26.2**cookie-value"));
    let shown = s.get_ocg_credentials(None);
    assert_eq!(shown.workspace_id, "wrk_...6789");
    assert_eq!(shown.auth_cookie, "Fe26...alue");
    assert!(shown.has_credentials);
    let plain = s.get_ocg_credentials(Some(true));
    assert_eq!(plain.workspace_id, "wrk_0123456789");
    s.set_ocg_credentials("", "x");
    assert!(!s.get_ocg_credentials(None).has_credentials);
}

#[test]
fn refresh_interval_is_clamped() {
    let mut s = Settings::new();
    assert_eq!(s.refresh_interval_secs(), 300);
    s.set_refresh_interval(0);
    assert_eq!(s.refresh_interval_secs(), 10);
    s.set_refresh_interval(1_000_000);
    assert_eq!(s.refresh_interval_secs(), 86400);
    s.set_refresh_interval(60);
    assert_eq!(s.refresh_interval_secs(), 60);
}

#[test]
fn endpoint_changes_only_to_known_endpoints() {
    let mut s = Settings::new();
    assert_eq!(s.set_endpoint(" OCG "), Some("ocg".to_string()));
    assert_eq!(s.endpoint(), "ocg");
    assert_eq!(s.set_endpoint("bogus"), None);
    assert_eq!(s.endpoint(), "ocg");
    assert!(matches!(s.quota_step(), QuotaStep::Ocg));
}

#[test]
fn quota_step_picks_url_and_key() {
    let mut s = Settings::new();
    s.restore(String::new(), "sk-io-key".to_string(), String::new(), String::new(), None);
    assert_eq!(s.endpoint(), "com");
    assert!(matches!(s.quota_step(), QuotaStep::MissingKey));
    s.set_endpoint("io");
    match s.quota_step() {
        QuotaStep::Fetch { url, key } => {
            assert_eq!(url, "https://api.minimax.io/v1/api/openplatform/coding_plan/remains");
            assert_eq!(key, "sk-io-key");
        }
        _ => panic!("expected a fetch"),
    }
}

fn model(name: Option<&str>, used_5h: u32, used_week: u32) -> ModelUsage {
    ModelUsage { model_name: name.map(|n| n.to_string()), used_5h, used_week }
}

#[test]
fn minimax_reply_updates_title_and_readings() {
    let mut s = Settings::new();
    let reply = MinimaxReply {
        base_status: Some(0),
        model_remains: Some(vec![model(Some("other"), 1, 1), model(Some("general"), 25, 60), model(Some("general"), 99, 99)]),
    };
    assert_eq!(s.apply_minimax_reply(&reply), Some("25% 60%".to_string()));
    assert_eq!(s.stale_title(), "25% 60%?");
    let refused = MinimaxReply { base_status: Some(1004), model_remains: None };
    assert_eq!(s.apply_minimax_reply(&refused), Some("AUTH!".to_string()));
    let odd = MinimaxReply { base_status: None, model_remains: None };
    assert_eq!(s.apply_minimax_reply(&odd), Some("25% 60%?".to_string()));
    let none = MinimaxReply { base_status: None, model_remains: Some(vec![model(None, 5, 5)]) };
    assert_eq!(s.apply_minimax_reply(&none), None);
    assert_eq!(s.stale_title(), "25% 60%?");
}

#[test]
fn ocg_bars_set_the_three_readings() {
    let mut s = Settings::new();
    let bars = vec![
        BarUse { id: "5h".to_string(), used: 13 },
        BarUse { id: "week".to_string(), used: 42 },
        BarUse { id: "month".to_string(), used: 78 },
    ];
    assert_eq!(s.apply_ocg_bars(&bars), "13% 42% 78%");
    let partial = vec![BarUse { id: "week".to_string(), used: 5 }];
    assert_eq!(s.apply_ocg_bars(&partial), "0% 5% 0%");
}

#[test]
fn ocg_failures_retry_once_then_show_unauth() {
    assert!(matches!(subbar::ocg_fetch_failed(1), subbar::OcgFailureStep::RetryAfterMillis(400)));
    assert!(matches!(subbar::ocg_fetch_failed(2), subbar::OcgFailureStep::ShowTitle("unauth")));
    assert!(matches!(subbar::ocg_fetch_failed(3), subbar::OcgFailureStep::ShowTitle("unauth")));
}

#[test]
fn general_model_reading_is_always_taken() {
    let mut s = Settings::new();
    let reply = MinimaxReply {
        base_status: None,
        model_remains: Some(vec![model(None, 1, 1), model(Some("general"), 7, 8)]),
    };
    assert_eq!(s.apply_minimax_reply(&reply), Some("7% 8%".to_string()));
    assert_eq!(s.stale_title(), "7% 8%?");
}

#[test]
fn ocg_request_comes_from_the_stored_credentials() {
    let mut s = Settings::new();
    assert!(s.ocg_dashboard_request().is_err());
    s.set_ocg_credentials(" wrk_XYZ ", " ck ");
    let q = s.ocg_dashboard_request().ok().unwrap();
    assert_eq!(q.workspace_id, "wrk_XYZ");
    assert_eq!(q.url, "https://opencode.ai/workspace/wrk_XYZ/go");
    assert_eq!(q.cookie_header, "auth=ck");
}

#[test]
fn refresh_waits_until_the_deadline_or_a_new_interval() {
    assert!(matches!(refresh_wait_step(0, 300, 300), RefreshStep::FetchNow));
    assert!(matches!(refresh_wait_step(5000, 300, 60), RefreshStep::FetchNow));
    assert!(matches!(refresh_wait_step(5000, 300, 300), RefreshStep::SleepMillis(1000)));
    assert!(matches!(refresh_wait_step(250, 300, 300), RefreshStep::SleepMillis(250)));
}

#[test]
fn launch_placement_polls_then_shows() {
    assert!(matches!(placement_step(true, true, 0), PlacementStep::Show));
    assert!(matches!(placement_step(false, false, 0), PlacementStep::Show));
    assert!(matches!(placement_step(true, false, 0), PlacementStep::WaitMillis(100)));
    assert!(matches!(placement_step(true, false, 59), PlacementStep::WaitMillis(100)));
    assert!(matches!(placement_step(true, false, 60), PlacementStep::Show));
}
