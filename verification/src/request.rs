//! What is sent for the OpenCode Go dashboard, and how a refused response is
//! reported.

use vstd::prelude::*;
use crate::text::{has_prefix, replace, replace_all, starts_with, trim, trimmed};

verus! {

/// The dashboard page of a workspace.
pub open spec fn dashboard_url(workspace_id: Seq<char>) -> Seq<char> {
    "https://opencode.ai/workspace/"@ + workspace_id + "/go"@
}

/// The error for missing OpenCode Go credentials.
pub open spec fn missing_credentials_error() -> Seq<char> {
    "OpenCode Go credentials missing (workspace ID and auth cookie required)"@
}

/// The request for one workspace's dashboard: the (trimmed) workspace ID, the
/// page URL, the same URL with the (secret) workspace ID masked for messages,
/// and the cookie header.
pub struct DashboardRequest {
    pub workspace_id: String,
    pub url: String,
    pub safe_url: String,
    pub cookie_header: String,
}

/// What building the dashboard request from a workspace ID and an auth cookie
/// gives: with both non-blank once trimmed, the request for the trimmed
/// workspace ID and cookie; otherwise the missing-credentials error.
pub open spec fn dashboard_request_outcome(
    workspace_id: Seq<char>,
    auth_cookie: Seq<char>,
    r: Result<DashboardRequest, String>,
) -> bool {
    match r {
        Ok(q) => {
            let ws = trimmed(workspace_id);
            &&& ws.len() > 0 && trimmed(auth_cookie).len() > 0
            &&& q.workspace_id@ == ws
            &&& q.url@ == dashboard_url(ws)
            &&& q.safe_url@ == replace_all(dashboard_url(ws), ws, "[REDACTED]"@)
            &&& q.cookie_header@ == "auth="@ + trimmed(auth_cookie)
        },
        Err(e) => (trimmed(workspace_id).len() == 0 || trimmed(auth_cookie).len() == 0) && e@
            == missing_credentials_error(),
    }
}

/// Builds the dashboard request from the stored credentials, each trimmed;
/// refuses when either is blank.
pub fn dashboard_request(workspace_id: &str, auth_cookie: &str) -> (r: Result<DashboardRequest, String>)
    ensures
        dashboard_request_outcome(workspace_id@, auth_cookie@, r),
{
    let ws = trim(workspace_id);
    let cookie = trim(auth_cookie);
    if ws.is_empty() || cookie.is_empty() {
        return Err(
            String::from_str("OpenCode Go credentials missing (workspace ID and auth cookie required)"),
        );
    }
    let mut url = String::from_str("https://opencode.ai/workspace/");
    url.append(ws);
    url.append("/go");
    let safe_url = replace(url.as_str(), ws, "[REDACTED]");
    let mut cookie_header = String::from_str("auth=");
    cookie_header.append(cookie);
    Ok(DashboardRequest { workspace_id: String::from_str(ws), url, safe_url, cookie_header })
}

/// A status in `200..=299`.
pub open spec fn is_success_status(code: u16) -> bool {
    200 <= code <= 299
}

/// The message for a refused dashboard response with status `code`, shown as
/// `status`, for the page `url`.
pub open spec fn dashboard_error_text(code: u16, status: Seq<char>, url: Seq<char>) -> Seq<char> {
    let head = "HTTP "@ + status + " from "@ + url;
    if code == 401 || code == 403 {
        head + " \u{2014} OpenCode Go auth cookie rejected; re-enter it in settings"@
    } else if code == 429 || (500 <= code <= 599) {
        head + " (transient)"@
    } else {
        head
    }
}

/// The error for a dashboard response: none on success; a rejected cookie on
/// 401 / 403; a transient failure on 429 and 5xx; the bare status otherwise.
/// `status` is the status as the HTTP layer displays it.
pub fn dashboard_http_error(code: u16, status: &str, url: &str) -> (e: Option<String>)
    ensures
        e is None <==> is_success_status(code),
        e matches Some(m) ==> m@ == dashboard_error_text(code, status@, url@),
{
    if 200 <= code && code <= 299 {
        return None;
    }
    let mut m = String::from_str("HTTP ");
    m.append(status);
    m.append(" from ");
    m.append(url);
    if code == 401 || code == 403 {
        m.append(" \u{2014} OpenCode Go auth cookie rejected; re-enter it in settings");
    } else if code == 429 || (500 <= code && code <= 599) {
        m.append(" (transient)");
    }
    Some(m)
}

/// The error for a refused Minimax quota response: `HTTP error: {status}`.
pub fn quota_http_error(code: u16, status: &str) -> (e: Option<String>)
    ensures
        e is None <==> is_success_status(code),
        e matches Some(m) ==> m@ == "HTTP error: "@ + status@,
{
    if 200 <= code && code <= 299 {
        None
    } else {
        let mut m = String::from_str("HTTP error: ");
        m.append(status);
        Some(m)
    }
}

/// `detail` with every occurrence of the trimmed workspace ID masked as
/// `[REDACTED]` (unchanged when the ID is blank).
pub open spec fn masked_detail(detail: Seq<char>, workspace_id: Seq<char>) -> Seq<char> {
    if trimmed(workspace_id).len() > 0 {
        replace_all(detail, trimmed(workspace_id), "[REDACTED]"@)
    } else {
        detail
    }
}

fn mask_workspace(detail: &str, workspace_id: &str) -> (m: String)
    ensures
        m@ == masked_detail(detail@, workspace_id@),
{
    let ws = trim(workspace_id);
    if ws.is_empty() {
        String::from_str(detail)
    } else {
        replace(detail, ws, "[REDACTED]")
    }
}

/// The error when the dashboard request could not be sent; `detail` is what
/// the HTTP layer reported, with the workspace ID masked, since it names the
/// page URL.
pub fn dashboard_request_failed(detail: &str, workspace_id: &str) -> (e: String)
    ensures
        e@ == "opencodego request failed: "@ + masked_detail(detail@, workspace_id@),
{
    let mut e = String::from_str("opencodego request failed: ");
    let m = mask_workspace(detail, workspace_id);
    e.append(m.as_str());
    e
}

/// The error when the dashboard page could not be read; `detail` is what the
/// HTTP layer reported, with the workspace ID masked.
pub fn dashboard_read_failed(detail: &str, workspace_id: &str) -> (e: String)
    ensures
        e@ == "opencodego: reading response: "@ + masked_detail(detail@, workspace_id@),
{
    let mut e = String::from_str("opencodego: reading response: ");
    let m = mask_workspace(detail, workspace_id);
    e.append(m.as_str());
    e
}

/// A link the app opens in the browser: only `https://` URLs.
pub fn is_allowed_external_url(url: &str) -> (r: bool)
    ensures
        r == has_prefix(url@, "https://"@),
{
    starts_with(url, "https://")
}

} // verus!
