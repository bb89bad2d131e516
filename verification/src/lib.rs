//! Verified core of the SubBar quota tray: credential routing and keychain
//! naming, endpoint selection, secret masking, the OpenCode Go dashboard
//! scrape and its quota bars, and the tray titles.

pub mod bars;
pub mod dashboard;
pub mod endpoint;
pub mod keychain;
pub mod redact;
pub mod request;
pub mod schedule;
pub mod settings;
pub mod text;
pub mod title;

pub use bars::{parse_ocg_bars, Bar};
pub use dashboard::{
    limits_from_windows, ocg_window_key, parse_dashboard, reset_seconds, window_key, Limit,
    UsageLimits, WindowFields,
};
pub use endpoint::{endpoint_from_persisted, is_ocg_endpoint, normalize_endpoint, select_api_key};
pub use keychain::{
    keychain_op, legacy_config_writes, KeychainOp, com_keyring, endpoint_keyring, io_keyring, legacy_key_writes, load_key_from_keyring,
    load_key_from_service, ocg_cookie_keyring, ocg_ws_keyring, save_key_to_keyring, KeychainWrite,
};
pub use schedule::{placement_step, refresh_wait_step, PlacementStep, RefreshStep};
pub use redact::{is_redactable, redact_api_key, reveal_or_redact};
pub use request::{
    dashboard_http_error, dashboard_read_failed, dashboard_request, dashboard_request_failed,
    is_allowed_external_url, quota_http_error, DashboardRequest,
};
pub use settings::{
    ocg_fetch_failed, BarUse, MinimaxReply, ModelUsage, OcgCredentials, OcgFailureStep, QuotaStep,
    Settings,
};
pub use title::{
    format_minimax_title, format_ocg_title, MINIMAX_AUTH_TITLE, MINIMAX_NO_KEY_TITLE,
    OCG_NO_AUTH_TITLE,
};
