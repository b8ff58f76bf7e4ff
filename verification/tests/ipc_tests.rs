use app_locker::config::AppConfig;
use app_locker::ipc::{IpcRequest, IpcResponse, IpcService, IpcStep, AUTO_APPROVE_WINDOW_NANOS};

fn service_with_password(apps: &[&str], password: &str) -> IpcService {
    let mut config = AppConfig {
        locked_apps: apps.iter().map(|a| a.to_string()).collect(),
        password: "admin".into(),
    };
    config.set_password(password).unwrap();
    IpcService::new(config, "C:\\app_locker.exe".to_string())
}

fn launch(name: &str, password: &str) -> IpcRequest {
    IpcRequest::LaunchApp {
        app_name: name.into(),
        app_path: format!("C:\\{}", name),
        password: password.into(),
    }
}

#[test]
fn test_ipc_launch_and_auto_approve() {
    let mut svc = service_with_password(&["app.exe"], "correct_pass");
    match svc.handle_request(launch("app.exe", "wrong_pass"), 1_000) {
        IpcStep::Reply(r) => assert_eq!(r, IpcResponse::WrongPassword),
        other => panic!("unexpected {:?}", other),
    }
    assert!(svc.recently_unlocked.is_empty());

    match svc.handle_request(launch("app.exe", "correct_pass"), 2_000) {
        IpcStep::Unlock(guard) => {
            assert_eq!(guard.app_name(), "app.exe");
            assert_eq!(guard.interceptor_path(), "C:\\app_locker.exe");
        }
        other => panic!("unexpected {:?}", other),
    }

    // Within 30 seconds any password is accepted.
    match svc.handle_request(launch("app.exe", "any_dummy_password"), 2_000 + 1_000_000_000) {
        IpcStep::Unlock(_) => {}
        other => panic!("unexpected {:?}", other),
    }
}

#[test]
fn test_ipc_auto_approve_expiration() {
    let mut svc = service_with_password(&["chrome.exe"], "secure_pass");
    let t0 = 5_000_000_000u64;
    assert!(matches!(svc.handle_request(launch("chrome.exe", "secure_pass"), t0), IpcStep::Unlock(_)));
    let later = t0 + AUTO_APPROVE_WINDOW_NANOS + 10_000_000_000;
    match svc.handle_request(launch("chrome.exe", "wrong_password"), later) {
        IpcStep::Reply(r) => assert_eq!(r, IpcResponse::WrongPassword),
        other => panic!("unexpected {:?}", other),
    }
    // Just inside the window is still approved.
    let mut svc2 = service_with_password(&["chrome.exe"], "secure_pass");
    assert!(matches!(svc2.handle_request(launch("chrome.exe", "secure_pass"), t0), IpcStep::Unlock(_)));
    let inside = t0 + AUTO_APPROVE_WINDOW_NANOS - 1;
    assert!(matches!(svc2.handle_request(launch("chrome.exe", "nope"), inside), IpcStep::Unlock(_)));
    let mut svc3 = service_with_password(&["chrome.exe"], "secure_pass");
    assert!(matches!(svc3.handle_request(launch("chrome.exe", "secure_pass"), t0), IpcStep::Unlock(_)));
    let edge = t0 + AUTO_APPROVE_WINDOW_NANOS;
    assert!(matches!(
        svc3.handle_request(launch("chrome.exe", "nope"), edge),
        IpcStep::Reply(IpcResponse::WrongPassword)
    ));
}

#[test]
fn test_ipc_case_insensitivity() {
    let mut svc = service_with_password(&["notepad.exe"], "mypass");
    let request = IpcRequest::LaunchApp {
        app_name: "NOTEPAD.EXE".into(),
        app_path: "C:\\Windows\\System32\\NOTEPAD.EXE".into(),
        password: "mypass".into(),
    };
    assert!(matches!(svc.handle_request(request, 1), IpcStep::Unlock(_)));
    assert!(svc.recently_unlocked.iter().any(|r| r.app_name == "notepad.exe"));
}

#[test]
fn test_ipc_concurrent_requests_burst() {
    let mut svc = service_with_password(&["burst.exe"], "burst_secret");
    for i in 0..8u64 {
        let pw = if i % 2 == 0 { "burst_secret" } else { "wrong" };
        let request = IpcRequest::LaunchApp {
            app_name: format!("burst_{}.exe", i),
            app_path: format!("C:\\burst_{}.exe", i),
            password: pw.to_string(),
        };
        let approved = matches!(svc.handle_request(request, i), IpcStep::Unlock(_));
        assert_eq!(approved, i % 2 == 0);
    }
}

#[test]
fn launch_normalises_name_case_and_spaces() {
    let mut svc = service_with_password(&["notepad.exe"], "mypass");
    match svc.handle_request(launch("  NOTEPAD.EXE ", "mypass"), 10) {
        IpcStep::Unlock(guard) => assert_eq!(guard.app_name(), "notepad.exe"),
        other => panic!("unexpected {:?}", other),
    }
    assert_eq!(svc.recently_unlocked.len(), 1);
    assert_eq!(svc.recently_unlocked[0].app_name, "notepad.exe");
    assert_eq!(svc.recently_unlocked[0].unlocked_at, 10);
    // A second unlock replaces the time instead of adding a record.
    assert!(matches!(svc.handle_request(launch("notepad.exe", "x"), 20), IpcStep::Unlock(_)));
    assert_eq!(svc.recently_unlocked.len(), 1);
    assert_eq!(svc.recently_unlocked[0].unlocked_at, 20);
}

#[test]
fn unlock_of_one_app_does_not_approve_another() {
    let mut svc = service_with_password(&["a.exe", "b.exe"], "pw");
    assert!(matches!(svc.handle_request(launch("a.exe", "pw"), 100), IpcStep::Unlock(_)));
    assert!(matches!(
        svc.handle_request(launch("b.exe", "bad"), 200),
        IpcStep::Reply(IpcResponse::WrongPassword)
    ));
}

#[test]
fn test_ipc_change_password_and_cancel() {
    let mut svc = service_with_password(&[], "old_pass_123");
    let before = svc.config.password.clone();
    match svc.handle_request(
        IpcRequest::ChangePassword {
            old_password: "wrong_old_pass".into(),
            new_password: "new_pass_456".into(),
        },
        0,
    ) {
        IpcStep::Reply(r) => assert_eq!(r, IpcResponse::WrongPassword),
        other => panic!("unexpected {:?}", other),
    }
    assert_eq!(svc.config.password, before);

    match svc.handle_request(
        IpcRequest::ChangePassword {
            old_password: "old_pass_123".into(),
            new_password: "new_pass_456".into(),
        },
        0,
    ) {
        IpcStep::SaveConfig => {}
        other => panic!("unexpected {:?}", other),
    }
    assert!(svc.config.verify_password("new_pass_456"));
    assert!(!svc.config.verify_password("old_pass_123"));
    assert_eq!(IpcService::finish_password_change(Ok(())), IpcResponse::PasswordChanged);
    assert_eq!(
        IpcService::finish_password_change(Err("disk full".into())),
        IpcResponse::Error("Gagal menyimpan: disk full".into())
    );
    match svc.handle_request(IpcRequest::CancelLaunch { app_name: "cancelled_app.exe".into() }, 0) {
        IpcStep::Reply(r) => assert_eq!(r, IpcResponse::Success),
        other => panic!("unexpected {:?}", other),
    }
}

#[test]
fn test_ipc_sequential_password_rotation() {
    let mut svc = service_with_password(&["target.exe"], "pass_zero");
    for (old, new) in [("pass_zero", "pass_one"), ("pass_one", "pass_two")] {
        match svc.handle_request(
            IpcRequest::ChangePassword { old_password: old.into(), new_password: new.into() },
            0,
        ) {
            IpcStep::SaveConfig => {}
            other => panic!("unexpected {:?}", other),
        }
    }
    assert!(!svc.config.verify_password("pass_zero"));
    assert!(!svc.config.verify_password("pass_one"));
    assert!(svc.config.verify_password("pass_two"));
}

#[test]
fn reload_replaces_config_and_reports_sync() {
    let mut svc = service_with_password(&["x.exe"], "pw");
    assert!(matches!(svc.handle_request(IpcRequest::ReloadConfig, 0), IpcStep::ReloadConfig));
    let fresh = AppConfig { locked_apps: vec!["y.exe".into()], password: "p".into() };
    assert_eq!(svc.finish_reload(fresh, Ok(())), IpcResponse::ConfigReloaded);
    assert_eq!(svc.config.locked_apps, vec!["y.exe".to_string()]);
    let other = AppConfig { locked_apps: vec![], password: "p".into() };
    assert_eq!(
        svc.finish_reload(other, Err("access denied".into())),
        IpcResponse::Error("Gagal reload: access denied".into())
    );
    assert!(svc.config.locked_apps.is_empty());
}

#[test]
fn change_password_sanitizes_locked_apps() {
    let mut svc = service_with_password(&[" A.exe", "a.EXE"], "pw");
    assert!(matches!(
        svc.handle_request(
            IpcRequest::ChangePassword { old_password: "pw".into(), new_password: "pw2".into() },
            0
        ),
        IpcStep::SaveConfig
    ));
    assert_eq!(svc.config.locked_apps, vec!["a.exe".to_string()]);
}

#[test]
fn requests_are_logged_without_passwords() {
    let r = IpcRequest::LaunchApp {
        app_name: "a.exe".into(),
        app_path: "C:\\a.exe".into(),
        password: "secret".into(),
    };
    assert_eq!(
        r.redacted(),
        "LaunchApp { app_name: \"a.exe\", app_path: \"C:\\\\a.exe\", password: \"[REDACTED]\" }"
    );
    let c = IpcRequest::ChangePassword { old_password: "o".into(), new_password: "n".into() };
    assert_eq!(
        c.redacted(),
        "ChangePassword { old_password: \"[REDACTED]\", new_password: \"[REDACTED]\" }"
    );
    assert_eq!(
        IpcRequest::CancelLaunch { app_name: "x.exe".into() }.redacted(),
        "CancelLaunch { app_name: \"x.exe\" }"
    );
    assert_eq!(IpcRequest::ReloadConfig.redacted(), "ReloadConfig");
    assert_eq!(IpcResponse::Error("a\"b".into()).text(), format!("{:?}", IpcResponse::Error("a\"b".into())));
    assert_eq!(IpcResponse::ConfigReloaded.text(), "ConfigReloaded");
}
