use app_locker::config::{AppConfig, LoadedConfig, StoredConfig};

#[test]
fn test_password_hashing_and_verification() {
    let mut config = AppConfig::default();
    assert!(config.verify_password("admin"));
    assert!(!config.verify_password("wrong_password"));

    config.set_password("new_secret_123").unwrap();
    assert!(config.verify_password("new_secret_123"));
    assert!(!config.verify_password("admin"));
}

#[test]
fn test_legacy_plaintext_password_verification() {
    let config = AppConfig {
        locked_apps: vec![],
        password: "legacy_plain_password".to_string(),
    };
    assert!(config.verify_password("legacy_plain_password"));
    assert!(!config.verify_password("other_password"));
}

#[test]
fn test_password_edge_cases_unicode_and_long() {
    let mut config = AppConfig::default();

    // Unicode and symbols
    let unicode_pass = "P@ssw0rd!_🔒_Indonésia-2026";
    assert!(config.set_password(unicode_pass).is_ok());
    assert!(config.password.starts_with("$argon2id$v=19$"));
    assert!(config.verify_password(unicode_pass));
    assert!(!config.verify_password("P@ssw0rd!_🔒_Indonesia-2026"));

    // Long password (1024 characters)
    let long_pass = "A".repeat(1024);
    assert!(config.set_password(&long_pass).is_ok());
    assert!(config.verify_password(&long_pass));
    assert!(!config.verify_password(&"A".repeat(1023)));
}

#[test]
fn default_config_has_no_locked_apps_and_hashed_admin() {
    let config = AppConfig::default();
    assert!(config.locked_apps.is_empty());
    assert!(config.password.starts_with("$argon2id$"));
}

#[test]
fn sanitize_trims_lowercases_and_deduplicates() {
    let mut config = AppConfig {
        locked_apps: vec![
            "  notepad.exe  ".into(),
            "NOTEPAD.EXE".into(),
            "".into(),
            "   ".into(),
            "Chrome.EXE".into(),
            "chrome.exe".into(),
            "calc.exe".into(),
        ],
        password: "admin".into(),
    };
    config.sanitize_locked_apps();
    assert_eq!(config.locked_apps, vec!["notepad.exe", "chrome.exe", "calc.exe"]);
    assert_eq!(config.password, "admin");
    // Cleaning a clean list changes nothing.
    config.sanitize_locked_apps();
    assert_eq!(config.locked_apps, vec!["notepad.exe", "chrome.exe", "calc.exe"]);
}

#[test]
fn sanitize_trims_unicode_white_space() {
    let mut config = AppConfig {
        locked_apps: vec!["\u{3000}\tApp.EXE\u{a0}\n".into()],
        password: "x".into(),
    };
    config.sanitize_locked_apps();
    assert_eq!(config.locked_apps, vec!["app.exe"]);
}

#[test]
fn load_migrates_plaintext_password() {
    let stored = AppConfig {
        locked_apps: vec!["calc.exe".into()],
        password: "plain_text_secret".into(),
    };
    let LoadedConfig { config, write_back } = AppConfig::load(StoredConfig::Parsed(stored));
    assert!(write_back);
    assert_eq!(config.locked_apps, vec!["calc.exe"]);
    assert!(config.verify_password("plain_text_secret"));
    assert!(!config.verify_password("wrong"));
    assert!(config.password.starts_with("$argon2"));
}

#[test]
fn load_keeps_hashed_password_and_cleans_apps() {
    let mut stored = AppConfig {
        locked_apps: vec![" Chrome.exe ".into(), "chrome.EXE".into(), "notepad.exe".into()],
        password: "admin".into(),
    };
    stored.set_password("mypassword").unwrap();
    let hash = stored.password.clone();
    let loaded = AppConfig::load(StoredConfig::Parsed(stored));
    assert!(!loaded.write_back);
    assert_eq!(loaded.config.password, hash);
    assert_eq!(loaded.config.locked_apps, vec!["chrome.exe", "notepad.exe"]);
    assert!(loaded.config.verify_password("mypassword"));
}

#[test]
fn load_corrupt_gives_default() {
    let loaded = AppConfig::load(StoredConfig::Corrupt);
    assert_eq!(loaded.config.locked_apps, Vec::<String>::new());
    assert!(loaded.config.verify_password("admin"));
    assert!(!loaded.write_back);
}

#[test]
fn load_missing_gives_default_to_write() {
    let loaded = AppConfig::load(StoredConfig::Missing);
    assert_eq!(loaded.config.locked_apps, Vec::<String>::new());
    assert!(loaded.config.verify_password("admin"));
    assert!(loaded.write_back);
}

#[test]
fn hash_password_produces_distinct_salted_hashes() {
    let a = AppConfig::hash_password("same").unwrap();
    let b = AppConfig::hash_password("same").unwrap();
    assert_ne!(a, b);
    let cfg = AppConfig { locked_apps: vec![], password: b };
    assert!(cfg.verify_password("same"));
}

#[test]
fn plaintext_starting_with_dollar_but_not_phc_compares_as_text() {
    let cfg = AppConfig { locked_apps: vec![], password: "$Not A Hash".into() };
    assert!(cfg.verify_password("$Not A Hash"));
    assert!(!cfg.verify_password("Not A Hash"));
    // A well-formed PHC string without salt or hash never verifies.
    let bare = AppConfig { locked_apps: vec![], password: "$argon2id".into() };
    assert!(!bare.verify_password("$argon2id"));
}

#[test]
fn hashes_are_argon2id_and_plain_text_without_dollar_compares_as_text() {
    let h = AppConfig::hash_password("secret").unwrap();
    assert!(h.starts_with("$argon2id$v=19$"));
    let c = AppConfig { locked_apps: vec![], password: h };
    assert!(c.verify_password("secret"));
    let plain = AppConfig { locked_apps: vec![], password: "argon2id".into() };
    assert!(plain.verify_password("argon2id"));
    assert!(!plain.verify_password("secret"));
    let empty = AppConfig { locked_apps: vec![], password: String::new() };
    assert!(empty.verify_password(""));
}

#[test]
fn load_corrupt_is_not_written_back_and_plain_text_is_migrated() {
    let loaded = AppConfig::load(StoredConfig::Corrupt);
    assert!(!loaded.write_back);
    assert!(loaded.config.password.starts_with("$argon2id$v=19$"));
    let stored = AppConfig {
        locked_apps: vec!["calc.exe".into()],
        password: "plain_text_secret".into(),
    };
    let loaded = AppConfig::load(StoredConfig::Parsed(stored));
    assert!(loaded.write_back);
    assert!(loaded.config.password.starts_with("$argon2id$v=19$"));
    assert!(loaded.config.verify_password("plain_text_secret"));
    assert!(!loaded.config.verify_password("wrong"));
}
