use subbar::{endpoint_from_persisted, is_ocg_endpoint, normalize_endpoint, select_api_key};

#[test]
fn endpoint_normalization_accepts_only_known_endpoints() {
    assert_eq!(normalize_endpoint("ocg"), Some("ocg".to_string()));
    assert_eq!(normalize_endpoint("com"), Some("com".to_string()));
    assert_eq!(normalize_endpoint("io"), Some("io".to_string()));
    assert_eq!(normalize_endpoint("OCG"), Some("ocg".to_string()));
    assert_eq!(normalize_endpoint("bogus"), None);
    assert_eq!(normalize_endpoint(""), None);
}

#[test]
fn endpoint_normalization_trims_and_lowercases() {
    assert_eq!(normalize_endpoint("  Io \n"), Some("io".to_string()));
    assert_eq!(normalize_endpoint("\tCoM"), Some("com".to_string()));
    assert_eq!(normalize_endpoint("o c g"), None);
}

#[test]
fn endpoint_normalization_is_idempotent() {
    for ep in ["ocg", " OCG ", "Com", "io\n"] {
        let once = normalize_endpoint(ep).unwrap();
        assert_eq!(normalize_endpoint(&once), Some(once.clone()));
    }
}

#[test]
fn persisted_endpoint_falls_back_to_com() {
    assert_eq!(endpoint_from_persisted(None), "com");
    assert_eq!(endpoint_from_persisted(Some("ocg")), "ocg");
    assert_eq!(endpoint_from_persisted(Some("OCG")), "ocg");
    assert_eq!(endpoint_from_persisted(Some("???")), "com");
    for ep in ["com", "io", "ocg"] {
        assert_eq!(endpoint_from_persisted(Some(ep)), ep);
    }
}

#[test]
fn select_api_key_routes_com_io_ocg() {
    // get_api_key must read the key for the endpoint the frontend is on, so
    // .com and .io behave identically and independently.
    assert_eq!(select_api_key("com", "comkey", "iokey"), "comkey");
    assert_eq!(select_api_key("io", "comkey", "iokey"), "iokey");
    assert_eq!(select_api_key("ocg", "comkey", "iokey"), "");
    assert_eq!(select_api_key("unknown", "comkey", "iokey"), "comkey");
}

#[test]
fn ocg_endpoint_dispatches_away_from_minimax() {
    // The tray "AUTH!" marker only exists on the Minimax path. When the
    // synced endpoint is ocg, the dispatcher MUST route to the ocg path so
    // the menubar never shows Minimax auth states for ocg.
    assert!(is_ocg_endpoint("ocg"));
    assert!(!is_ocg_endpoint("com"));
    assert!(!is_ocg_endpoint("io"));
}
