use subbar::{
    limits_from_windows, ocg_window_key, parse_dashboard, parse_ocg_bars, reset_seconds,
    window_key, Limit, UsageLimits, WindowFields,
};

fn used(limits: &UsageLimits, key: &str) -> f64 {
    limits.get(key).unwrap().used_percent.parse::<f64>().unwrap()
}

#[test]
fn parse_extracts_three_windows() {
    let html = r#"
      "rollingUsage": { "usagePercent": 12.5, "resetInSec": 18000 },
      "weeklyUsage": { "usagePercent": 42, "resetInSec": 160000 },
      "monthlyUsage": { "usagePercent": 78.0, "resetInSec": 540000 }
    "#;
    let limits = parse_dashboard(html).expect("should parse");
    assert_eq!(limits.len(), 3);
    assert_eq!(used(&limits, "five_hour"), 12.5);
    assert_eq!(used(&limits, "seven_day"), 42.0);
    assert_eq!(used(&limits, "monthly"), 78.0);
}

#[test]
fn parse_handles_quoted_keys() {
    let html = r#"
      "rolling": { "usagePercent": 0, "resetInSec": 1 },
      "weekly": { "usagePercent": 3.3, "resetInSec": 2 },
      "monthly": { "usagePercent": 9, "resetInSec": 3 }
    "#;
    let limits = parse_dashboard(html).expect("should parse");
    assert_eq!(used(&limits, "five_hour"), 0.0);
    assert_eq!(used(&limits, "seven_day"), 3.3);
}

#[test]
fn parse_returns_error_when_no_windows() {
    assert!(parse_dashboard("no usage here").is_err());
}

#[test]
fn parse_reads_reset_seconds_and_error_text() {
    let html = r#"weeklyUsage:$R[3]={usagePercent:7,resetInSec:60}"#;
    let limits = parse_dashboard(html).expect("should parse");
    assert_eq!(limits.len(), 1);
    assert_eq!(limits.get("seven_day").unwrap().reset_in_secs, 60);
    assert_eq!(limits.get("seven_day").unwrap().used_percent, "7");
    assert!(limits.get("five_hour").is_none());
    let err = parse_dashboard(r#""rolling": { "usagePercent": 5 }"#).err().unwrap();
    assert_eq!(err, "opencodego: no usage window data found in dashboard response");
}

#[test]
fn parse_keeps_the_last_window_of_a_name() {
    let html = r#""rolling": { "usagePercent": 1, "resetInSec": 10 } "rollingUsage": { "usagePercent": 2, "resetInSec": 20 }"#;
    let limits = parse_dashboard(html).expect("should parse");
    assert_eq!(limits.len(), 1);
    assert_eq!(used(&limits, "five_hour"), 2.0);
    assert_eq!(limits.get("five_hour").unwrap().reset_in_secs, 20);
}

#[test]
fn window_keys_map_names() {
    assert_eq!(window_key("rolling"), "five_hour");
    assert_eq!(window_key("weekly"), "seven_day");
    assert_eq!(window_key("monthly"), "monthly");
    assert_eq!(window_key("daily"), "unknown");
    assert_eq!(ocg_window_key("weekly"), "seven_day");
}

#[test]
fn reset_seconds_follow_i64_parsing() {
    assert_eq!(reset_seconds("18000"), 18000);
    assert_eq!(reset_seconds("-5"), 0);
    assert_eq!(reset_seconds("+7"), 7);
    assert_eq!(reset_seconds("9223372036854775807"), i64::MAX);
    assert_eq!(reset_seconds("9223372036854775808"), 0);
    assert_eq!(reset_seconds("12a"), 0);
    assert_eq!(reset_seconds(""), 0);
    assert_eq!(reset_seconds("-"), 0);
}

#[test]
fn windows_need_both_fields() {
    let windows = vec![
        WindowFields { name: "rolling".to_string(), usage_percent: Some("5".to_string()), reset_in_sec: None },
        WindowFields { name: "monthly".to_string(), usage_percent: Some("6".to_string()), reset_in_sec: Some("9".to_string()) },
    ];
    let limits = limits_from_windows(&windows).unwrap();
    assert_eq!(limits.len(), 1);
    assert_eq!(limits.get("monthly").unwrap().reset_in_secs, 9);
    assert!(limits_from_windows(&windows[..1].iter().map(|w| WindowFields {
        name: w.name.clone(),
        usage_percent: w.usage_percent.clone(),
        reset_in_sec: w.reset_in_sec.clone(),
    }).collect()).is_err());
}

// What the dashboard scrape yields is what the bar layout reads.
#[test]
fn parse_ocg_bars_reads_vendored_shape() {
    let mut limits = UsageLimits::new();
    limits.insert("five_hour", Limit { used_percent: "12.5".to_string(), reset_in_secs: 3600 });
    limits.insert("seven_day", Limit { used_percent: "42.0".to_string(), reset_in_secs: 86400 });
    limits.insert("monthly", Limit { used_percent: "78.0".to_string(), reset_in_secs: 604800 });
    let bars = parse_ocg_bars(&limits).expect("bars should parse");
    assert_eq!(bars.len(), 3);
    let ids: Vec<&str> = bars.iter().map(|b| b.id.as_str()).collect();
    assert_eq!(ids, vec!["5h", "week", "month"]);
    let resets: Vec<i64> = bars.iter().map(|b| b.reset_in_secs).collect();
    assert_eq!(resets, vec![3600, 86400, 604800]);
    for b in bars {
        let used = b.used_percent.parse::<f64>().expect("used_percent should be a number");
        assert!((0.0..=100.0).contains(&used), "used_percent {} out of range", used);
    }
}

#[test]
fn parse_ocg_bars_names_the_first_missing_window() {
    let mut limits = UsageLimits::new();
    limits.insert("five_hour", Limit { used_percent: "1".to_string(), reset_in_secs: 1 });
    let err = parse_ocg_bars(&limits).err().unwrap();
    assert_eq!(err, "agent-limits: missing limits.seven_day");
    let err = parse_ocg_bars(&UsageLimits::new()).err().unwrap();
    assert_eq!(err, "agent-limits: missing limits.five_hour");
}
