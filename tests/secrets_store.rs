use world_monitor::secrets::{list_supported_secret_keys, supported_key, SecretStore, SUPPORTED_KEY_COUNT};

#[test]
fn lists_every_supported_key_in_order() {
    let keys = list_supported_secret_keys();
    assert_eq!(keys.len(), SUPPORTED_KEY_COUNT);
    assert_eq!(keys[0], "GROQ_API_KEY");
    assert_eq!(keys[10], "WS_RELAY_URL");
    assert_eq!(keys[20], "WORLDMONITOR_API_KEY");
    assert_eq!(supported_key(19), "OLLAMA_MODEL");
}

#[test]
fn unsupported_key_is_rejected() {
    let store = SecretStore::new();
    assert_eq!(store.get_secret("HOME").unwrap_err(), "Unsupported secret key: HOME");
    assert_eq!(
        store.with_secret("groq_api_key", "x").err().unwrap(),
        "Unsupported secret key: groq_api_key"
    );
    assert_eq!(store.without_secret("").err().unwrap(), "Unsupported secret key: ");
}

#[test]
fn set_value_is_trimmed() {
    let store = SecretStore::new();
    let next = store.with_secret("FRED_API_KEY", "  abc123 \n").ok().unwrap();
    assert_eq!(next.get_secret("FRED_API_KEY").unwrap(), Some("abc123".to_string()));
    // The store that was asked is left as it is.
    assert_eq!(store.get_secret("FRED_API_KEY").unwrap(), None);
}

#[test]
fn unicode_white_space_is_trimmed() {
    let store = SecretStore::new();
    let next = store.with_secret("OLLAMA_MODEL", "\u{3000}llama3\u{a0}\t").ok().unwrap();
    assert_eq!(next.get_secret("OLLAMA_MODEL").unwrap(), Some("llama3".to_string()));
}

#[test]
fn blank_value_removes_the_key() {
    let store = SecretStore::new().with_secret("EIA_API_KEY", "k").ok().unwrap();
    let cleared = store.with_secret("EIA_API_KEY", "   ").ok().unwrap();
    assert_eq!(cleared.get_secret("EIA_API_KEY").unwrap(), None);
    assert!(cleared.is_empty());
    assert!(!store.is_empty());
}

#[test]
fn delete_removes_only_that_key() {
    let store = SecretStore::new()
        .with_secret("EIA_API_KEY", "a")
        .ok()
        .unwrap()
        .with_secret("OTX_API_KEY", "b")
        .ok()
        .unwrap();
    let next = store.without_secret("EIA_API_KEY").ok().unwrap();
    assert_eq!(next.get_secret("EIA_API_KEY").unwrap(), None);
    assert_eq!(next.get_secret("OTX_API_KEY").unwrap(), Some("b".to_string()));
}

#[test]
fn entries_follow_the_order_of_supported_keys() {
    let store = SecretStore::new()
        .with_secret("WORLDMONITOR_API_KEY", "z")
        .ok()
        .unwrap()
        .with_secret("GROQ_API_KEY", "g")
        .ok()
        .unwrap();
    assert_eq!(
        store.entries(),
        vec![
            ("GROQ_API_KEY".to_string(), "g".to_string()),
            ("WORLDMONITOR_API_KEY".to_string(), "z".to_string()),
        ]
    );
}

#[test]
fn vault_json_keeps_supported_non_blank_values() {
    let json = r#"{"GROQ_API_KEY":"  g  ","UNKNOWN":"u","FRED_API_KEY":"   ","OTX_API_KEY":"o"}"#;
    let store = SecretStore::from_vault_json(json).unwrap();
    assert_eq!(
        store.entries(),
        vec![
            ("GROQ_API_KEY".to_string(), "g".to_string()),
            ("OTX_API_KEY".to_string(), "o".to_string()),
        ]
    );
}

#[test]
fn vault_json_that_is_no_object_of_strings_is_refused() {
    assert!(SecretStore::from_vault_json("not json").is_none());
    assert!(SecretStore::from_vault_json(r#"["GROQ_API_KEY"]"#).is_none());
    assert!(SecretStore::from_vault_json(r#"{"GROQ_API_KEY":1}"#).is_none());
}

#[test]
fn later_vault_entry_for_a_key_wins() {
    let pairs = vec![
        ("OTX_API_KEY".to_string(), "first".to_string()),
        ("OTX_API_KEY".to_string(), "second".to_string()),
    ];
    let store = SecretStore::from_vault_entries(&pairs);
    assert_eq!(store.get_secret("OTX_API_KEY").unwrap(), Some("second".to_string()));
}

#[test]
fn vault_json_is_written_as_one_object() {
    let store = SecretStore::new()
        .with_secret("OTX_API_KEY", "o")
        .ok()
        .unwrap()
        .with_secret("GROQ_API_KEY", "g\"q")
        .ok()
        .unwrap();
    assert_eq!(store.vault_json().unwrap(), r#"{"GROQ_API_KEY":"g\"q","OTX_API_KEY":"o"}"#);
    assert_eq!(SecretStore::new().vault_json().unwrap(), "{}");
}

#[test]
fn vault_json_reads_back_what_was_written() {
    let store = SecretStore::new().with_secret("ACLED_ACCESS_TOKEN", "t").ok().unwrap();
    let back = SecretStore::from_vault_json(&store.vault_json().unwrap()).unwrap();
    assert_eq!(back.entries(), store.entries());
}

#[test]
fn keychain_values_are_trimmed_and_blanks_dropped() {
    let mut values: Vec<Option<String>> = vec![None; SUPPORTED_KEY_COUNT];
    values[0] = Some(" g ".to_string());
    values[1] = Some("  ".to_string());
    values[20] = Some("w".to_string());
    let store = SecretStore::from_keychain_values(&values);
    assert_eq!(
        store.entries(),
        vec![
            ("GROQ_API_KEY".to_string(), "g".to_string()),
            ("WORLDMONITOR_API_KEY".to_string(), "w".to_string()),
        ]
    );
    let none = SecretStore::from_keychain_values(&vec![None; SUPPORTED_KEY_COUNT]);
    assert!(none.is_empty());
}
