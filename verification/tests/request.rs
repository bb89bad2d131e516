use subbar::{dashboard_http_error, dashboard_request, quota_http_error};

#[test]
fn fetch_ocg_usage_no_creds_is_clear_error() {
    let res = dashboard_request("", "");
    let err = res.err().expect("empty creds must error, never fetch");
    assert!(err.contains("credentials missing"), "unexpected error: {err}");
}

#[test]
fn fetch_ocg_usage_blank_space_creds_is_clear_error() {
    let res = dashboard_request("   ", "  ");
    let err = res.err().expect("whitespace creds must error");
    assert!(err.contains("credentials missing"), "unexpected error: {err}");
}

#[test]
fn dashboard_request_masks_the_workspace() {
    let q = dashboard_request("  wrk_ABC ", " cookie\n").ok().unwrap();
    assert_eq!(q.url, "https://opencode.ai/workspace/wrk_ABC/go");
    assert_eq!(q.safe_url, "https://opencode.ai/workspace/[REDACTED]/go");
    assert_eq!(q.cookie_header, "auth=cookie");
    assert!(dashboard_request("ws", " ").is_err());
}

#[test]
fn dashboard_errors_by_status_class() {
    let url = "https://opencode.ai/workspace/[REDACTED]/go";
    assert_eq!(dashboard_http_error(200, "200 OK", url), None);
    assert_eq!(
        dashboard_http_error(401, "401 Unauthorized", url).unwrap(),
        "HTTP 401 Unauthorized from https://opencode.ai/workspace/[REDACTED]/go \u{2014} OpenCode Go auth cookie rejected; re-enter it in settings"
    );
    assert_eq!(
        dashboard_http_error(503, "503 Service Unavailable", url).unwrap(),
        "HTTP 503 Service Unavailable from https://opencode.ai/workspace/[REDACTED]/go (transient)"
    );
    assert_eq!(
        dashboard_http_error(429, "429 Too Many Requests", url).unwrap(),
        "HTTP 429 Too Many Requests from https://opencode.ai/workspace/[REDACTED]/go (transient)"
    );
    assert_eq!(
        dashboard_http_error(404, "404 Not Found", url).unwrap(),
        "HTTP 404 Not Found from https://opencode.ai/workspace/[REDACTED]/go"
    );
    assert_eq!(quota_http_error(204, "204 No Content"), None);
    assert_eq!(quota_http_error(500, "500 Internal Server Error").unwrap(), "HTTP error: 500 Internal Server Error");
}

#[test]
fn request_failures_mask_the_workspace() {
    let detail = "error sending request for url (https://opencode.ai/workspace/wrk_ABC/go)";
    assert_eq!(
        subbar::dashboard_request_failed(detail, " wrk_ABC "),
        "opencodego request failed: error sending request for url (https://opencode.ai/workspace/[REDACTED]/go)"
    );
    assert_eq!(
        subbar::dashboard_read_failed("body of wrk_ABC cut short", "wrk_ABC"),
        "opencodego: reading response: body of [REDACTED] cut short"
    );
    assert_eq!(subbar::dashboard_request_failed("timed out", "  "), "opencodego request failed: timed out");
}

#[test]
fn only_https_links_open() {
    assert!(subbar::is_allowed_external_url("https://opencode.ai/workspace"));
    assert!(!subbar::is_allowed_external_url("http://opencode.ai"));
    assert!(!subbar::is_allowed_external_url("file:///etc/passwd"));
    assert!(!subbar::is_allowed_external_url("javascript:alert(1)"));
    assert!(!subbar::is_allowed_external_url("https:/x"));
}
