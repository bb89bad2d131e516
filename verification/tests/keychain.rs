use subbar::{
    com_keyring, endpoint_keyring, io_keyring, legacy_key_writes, load_key_from_keyring,
    ocg_cookie_keyring, ocg_ws_keyring, save_key_to_keyring,
};

#[test]
fn keyring_mapping_uses_subbar_names() {
    // Minimax keys live under subbar-named keychain items.
    assert_eq!(com_keyring(), ("subbar-minimax", "subbar"));
    assert_eq!(io_keyring(), ("subbar-minimaxi", "subbar"));
    assert_eq!(endpoint_keyring("com"), Some(("subbar-minimax", "subbar")));
    assert_eq!(endpoint_keyring("io"), Some(("subbar-minimaxi", "subbar")));
    assert_eq!(endpoint_keyring("ocg"), None);
}

#[test]
fn ocg_keyring_items_use_subbar_names() {
    // OpenCode Go credentials live in their own keychain items so they never
    // collide with the Minimax keys.
    assert_eq!(ocg_ws_keyring(), ("subbar-ocg-ws", "subbar"));
    assert_eq!(ocg_cookie_keyring(), ("subbar-ocg-cookie", "subbar"));
}

#[test]
fn ocg_keyring_round_trip() {
    // On Linux the credential store is the kernel session keyring: make sure
    // this test process has one of its own.
    linux_keyutils::KeyRing::from_special_id(linux_keyutils::KeyRingIdentifier::Session, true)
        .expect("session keyring");
    let (ws_s, ws_u) = ocg_ws_keyring();
    let (c_s, c_u) = ocg_cookie_keyring();
    save_key_to_keyring(ws_s, ws_u, "wstest123");
    save_key_to_keyring(c_s, c_u, "cookietest456");
    let loaded_ws = load_key_from_keyring(ws_s, ws_u);
    let loaded_ck = load_key_from_keyring(c_s, c_u);
    assert_eq!(loaded_ws, "wstest123", "ocg ws keychain write failed");
    assert_eq!(loaded_ck, "cookietest456", "ocg cookie keychain write failed");
    // cleanup
    save_key_to_keyring(ws_s, ws_u, "");
    save_key_to_keyring(c_s, c_u, "");
}

#[test]
fn legacy_config_keys_prefer_api_key_com() {
    let writes = legacy_key_writes(Some("sk-com"), Some("sk-old"), Some("sk-io"));
    assert_eq!(writes.len(), 2);
    assert_eq!((writes[0].service, writes[0].user, writes[0].value.as_str()), ("subbar-minimax", "subbar", "sk-com"));
    assert_eq!((writes[1].service, writes[1].user, writes[1].value.as_str()), ("subbar-minimaxi", "subbar", "sk-io"));
}

#[test]
fn legacy_config_falls_back_to_api_key_and_skips_empty() {
    let writes = legacy_key_writes(None, Some("sk-old"), Some(""));
    assert_eq!(writes.len(), 1);
    assert_eq!(writes[0].service, "subbar-minimax");
    assert_eq!(writes[0].value, "sk-old");
    assert!(legacy_key_writes(None, None, None).is_empty());
}

#[test]
fn stored_key_is_empty_unless_read() {
    assert_eq!(subbar::keychain::stored_key(Some(Ok("sk-abc".to_string()))), "sk-abc");
    assert_eq!(subbar::keychain::stored_key(Some(Err(keyring::Error::NoEntry))), "");
    assert_eq!(subbar::keychain::stored_key(None), "");
}

#[test]
fn legacy_config_content_gives_writes() {
    let writes = subbar::legacy_config_writes(r#"{"api_key": "sk-old", "api_key_io": "sk-io", "other": 1}"#);
    let got: Vec<(&str, &str)> = writes.iter().map(|w| (w.service, w.value.as_str())).collect();
    assert_eq!(got, vec![("subbar-minimax", "sk-old"), ("subbar-minimaxi", "sk-io")]);
    let writes = subbar::legacy_config_writes(r#"{"api_key_com": "sk-com", "api_key": "sk-old", "api_key_io": 5}"#);
    assert_eq!(writes.len(), 1);
    assert_eq!(writes[0].value, "sk-com");
    assert!(subbar::legacy_config_writes("not json").is_empty());
    assert!(subbar::legacy_config_writes("[1, 2]").is_empty());
}

#[test]
fn saving_an_empty_key_deletes() {
    assert!(matches!(subbar::keychain_op(""), subbar::KeychainOp::Delete));
    assert!(matches!(subbar::keychain_op("sk-abc"), subbar::KeychainOp::Store));
}
