use app_locker::config::AppConfig;
use app_locker::ifeo::{
    debugger_value, is_ours, remove_all_ifeo, remove_ifeo, set_ifeo, subkey_path, sync_ifeo_with_config,
    IfeoKey, IfeoRemoval, IfeoUnlockGuard, IFEO_BASE_KEY,
};

#[test]
fn set_ifeo_builds_subkey_and_debugger() {
    let e = set_ifeo("notepad.exe", "C:\\app_locker.exe");
    assert_eq!(
        e.subkey,
        "SOFTWARE\\Microsoft\\Windows NT\\CurrentVersion\\Image File Execution Options\\notepad.exe"
    );
    assert_eq!(e.debugger, "\"C:\\app_locker.exe\" --interceptor");
    assert_eq!(debugger_value("x"), "\"x\" --interceptor");
    assert!(IFEO_BASE_KEY.ends_with("Image File Execution Options"));
}

#[test]
fn subkey_path_appends_name_to_base_key() {
    assert_eq!(subkey_path("chrome.exe"), format!("{}\\chrome.exe", IFEO_BASE_KEY));
    assert_eq!(subkey_path(""), format!("{}\\", IFEO_BASE_KEY));
}

#[test]
fn remove_ifeo_restores_filters_or_deletes() {
    assert_eq!(
        remove_ifeo("a.exe", true),
        IfeoRemoval::RestoreFilters { subkey: format!("{}\\a.exe", IFEO_BASE_KEY) }
    );
    assert_eq!(remove_ifeo("a.exe", false), IfeoRemoval::DeleteKey { app_name: "a.exe".into() });
}

#[test]
fn our_debugger_needs_flag_and_path() {
    assert!(is_ours("\"C:\\app_locker.exe\" --interceptor", "C:\\app_locker.exe"));
    assert!(!is_ours("\"C:\\other.exe\" --interceptor", "C:\\app_locker.exe"));
    assert!(!is_ours("\"C:\\app_locker.exe\"", "C:\\app_locker.exe"));
}

fn key(name: &str, debugger: Option<&str>, filters: &[&str]) -> IfeoKey {
    IfeoKey {
        name: name.into(),
        debugger: debugger.map(|d| d.to_string()),
        filter_debuggers: filters.iter().map(|f| f.to_string()).collect(),
    }
}

#[test]
fn sync_removes_only_orphans() {
    let path = "C:\\app_locker.exe";
    let ours = format!("\"{}\" --interceptor", path);
    let config = AppConfig { locked_apps: vec!["locked_app.exe".into()], password: "admin".into() };
    let keys = vec![
        key("orphan_app.exe", Some(&ours), &[]),
        key("LOCKED_APP.EXE", Some(&ours), &[]),
        key("foreign.exe", Some("\"C:\\dbg.exe\""), &[]),
        key("plain.exe", None, &[]),
    ];
    let plan = sync_ifeo_with_config(&config, path, &keys);
    assert_eq!(plan.remove, vec!["orphan_app.exe".to_string()]);
    assert_eq!(plan.install.len(), 1);
    assert_eq!(plan.install[0], set_ifeo("locked_app.exe", path));
}

#[test]
fn test_registry_sync_and_orphan_cleanup_isolated() {
    let interceptor_path = "C:\\app_locker.exe";
    let ours = format!("\"{}\" --interceptor", interceptor_path);
    let keys = vec![key("orphan_app.exe", Some(&ours), &[]), key("locked_app.exe", Some(&ours), &[])];
    let config = AppConfig { locked_apps: vec!["locked_app.exe".into()], password: "admin".into() };
    let plan = sync_ifeo_with_config(&config, interceptor_path, &keys);
    assert!(plan.remove.contains(&"orphan_app.exe".to_string()));
    assert!(!plan.remove.contains(&"locked_app.exe".to_string()));
}

#[test]
fn remove_all_matches_key_or_filter_debugger() {
    let path = "C:\\app_locker.exe";
    let ours = format!("\"{}\" --interceptor", path);
    let keys = vec![
        key("a.exe", Some(&ours), &[]),
        key("b.exe", None, &[&ours]),
        key("c.exe", Some("something"), &["other", &ours]),
        key("d.exe", Some("something"), &["other"]),
    ];
    assert_eq!(
        remove_all_ifeo(path, &keys),
        vec!["a.exe".to_string(), "b.exe".to_string(), "c.exe".to_string()]
    );
}

#[test]
fn unlock_guard_relocks_same_entry() {
    let g = IfeoUnlockGuard::new("app.exe".into(), "C:\\app_locker.exe".into());
    assert_eq!(g.app_name(), "app.exe");
    assert_eq!(g.relock_entry(), set_ifeo("app.exe", "C:\\app_locker.exe"));
}
