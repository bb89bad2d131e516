use subbar::{format_minimax_title, format_ocg_title, MINIMAX_AUTH_TITLE, MINIMAX_NO_KEY_TITLE, OCG_NO_AUTH_TITLE};

#[test]
fn ocg_title_formats_three_limits() {
    assert_eq!(format_ocg_title(0, 0, 0), "0% 0% 0%");
    assert_eq!(format_ocg_title(12, 34, 56), "12% 34% 56%");
    assert_eq!(format_ocg_title(100, 100, 100), "100% 100% 100%");
}

#[test]
fn ocg_no_auth_title_is_clear_status() {
    // The tray must show a clear no-key / unauth status, not a raw error.
    assert_eq!(OCG_NO_AUTH_TITLE, "unauth");
}

#[test]
fn ocg_title_renders_large_values_in_decimal() {
    assert_eq!(format_ocg_title(4294967295, 10, 9), "4294967295% 10% 9%");
}

#[test]
fn minimax_titles_mark_stale_readings() {
    assert_eq!(format_minimax_title(12, 40, false), "12% 40%");
    assert_eq!(format_minimax_title(12, 40, true), "12% 40%?");
    assert_eq!(MINIMAX_NO_KEY_TITLE, "KEY?");
    assert_eq!(MINIMAX_AUTH_TITLE, "AUTH!");
}
