use subbar::{is_redactable, redact_api_key, reveal_or_redact};

#[test]
fn redaction_keeps_only_the_ends() {
    assert_eq!(redact_api_key("sk-abcdefghijkl"), "sk-a...ijkl");
    assert_eq!(redact_api_key("12345678"), "[REDACTED]");
    assert_eq!(redact_api_key("sk-abcdefgh"), "[REDACTED]");
    assert_eq!(redact_api_key("123456789012"), "[REDACTED]");
    assert_eq!(redact_api_key("1234567890123"), "1234...0123");
}

#[test]
fn redaction_needs_character_boundaries() {
    assert!(is_redactable("short"));
    assert!(is_redactable("sk-abcdefghijkl"));
    assert!(is_redactable("abc\u{e9}defghij"));
    assert_eq!(redact_api_key("abc\u{e9}defghij"), "[REDACTED]");
    assert!(!is_redactable("abc\u{e9}defghijkl"));
}

#[test]
fn reveal_or_redact_shows_plaintext_only_on_request() {
    assert_eq!(reveal_or_redact("sk-abcdefghijkl", true), "sk-abcdefghijkl");
    assert_eq!(reveal_or_redact("sk-abcdefghijkl", false), "sk-a...ijkl");
    assert_eq!(reveal_or_redact("", false), "");
}
