use app_locker::config::AppConfig;
use app_locker::interceptor::{
    is_child_process, prompt_after_reply, PromptOutcome, UnlockAction, UnlockEvent, UnlockFlow,
    UnlockPhase,
};
use app_locker::ipc::IpcResponse;
use app_locker::panel::{
    add_app, change_password_locally, check_password_change, locked_app_names, AddAppOutcome,
    AppItem, LocalPasswordChange, PasswordChangeIssue,
};

fn item(name: &str, locked: bool) -> AppItem {
    AppItem { name: name.into(), locked }
}

#[test]
fn add_app_normalises_and_rejects_duplicates() {
    let items = vec![item("Notepad.exe", true)];
    assert_eq!(add_app(&items, "   "), AddAppOutcome::Ignored);
    assert_eq!(add_app(&items, " NOTEPAD.EXE "), AddAppOutcome::Duplicate);
    assert_eq!(add_app(&items, " Chrome.EXE"), AddAppOutcome::Added("chrome.exe".into()));
}

#[test]
fn locked_names_keep_order() {
    let items = vec![item("a.exe", true), item("b.exe", false), item("c.exe", true)];
    assert_eq!(locked_app_names(&items), vec!["a.exe".to_string(), "c.exe".to_string()]);
}

#[test]
fn password_fields_are_checked_in_order() {
    assert_eq!(check_password_change("", "a", "a"), Err(PasswordChangeIssue::MissingField));
    assert_eq!(check_password_change("o", "a", "b"), Err(PasswordChangeIssue::Mismatch));
    assert_eq!(check_password_change("a", "a", "a"), Err(PasswordChangeIssue::Unchanged));
    assert_eq!(check_password_change("o", "n", "n"), Ok(()));
}

#[test]
fn local_password_change() {
    let mut cfg = AppConfig { locked_apps: vec![], password: "plain".into() };
    assert_eq!(change_password_locally(&mut cfg, "wrong", "new"), LocalPasswordChange::WrongOldPassword);
    assert_eq!(cfg.password, "plain");
    assert_eq!(change_password_locally(&mut cfg, "plain", "new"), LocalPasswordChange::Save);
    assert!(cfg.verify_password("new"));
    assert!(!cfg.verify_password("plain"));
}

#[test]
fn child_processes_skip_the_prompt() {
    assert!(is_child_process(&vec!["--flag".into(), "--type=renderer".into()]));
    assert!(!is_child_process(&vec!["--flag".into(), "x--type=".into()]));
    assert!(!is_child_process(&vec![]));
}

#[test]
fn unlock_flow_when_service_runs() {
    let (mut flow, a) = UnlockFlow::start();
    assert_eq!(a, UnlockAction::QueryServiceRunning);
    assert_eq!(flow.on_event(UnlockEvent::ServiceRunning(true)), UnlockAction::SendLaunchRequest);
    assert_eq!(
        flow.on_event(UnlockEvent::Replied(Ok(IpcResponse::WrongPassword))),
        UnlockAction::Finish(Ok(IpcResponse::WrongPassword))
    );
    assert_eq!(flow.phase, UnlockPhase::Finished);
}

#[test]
fn unlock_flow_starts_service_and_polls() {
    let (mut flow, _) = UnlockFlow::start();
    assert_eq!(flow.on_event(UnlockEvent::ServiceRunning(false)), UnlockAction::StartService);
    assert_eq!(flow.on_event(UnlockEvent::Completed), UnlockAction::QueryServiceRunning);
    let mut polls = 1;
    loop {
        match flow.on_event(UnlockEvent::ServiceRunning(false)) {
            UnlockAction::Sleep { millis } => assert_eq!(millis, 50),
            other => panic!("unexpected {:?}", other),
        }
        match flow.on_event(UnlockEvent::Completed) {
            UnlockAction::QueryServiceRunning => polls += 1,
            UnlockAction::SendLaunchRequest => break,
            other => panic!("unexpected {:?}", other),
        }
    }
    assert_eq!(polls, 15);
}

#[test]
fn unlock_flow_retries_once_after_restart() {
    let (mut flow, _) = UnlockFlow::start();
    flow.on_event(UnlockEvent::ServiceRunning(true));
    assert_eq!(
        flow.on_event(UnlockEvent::Replied(Err("pipe".into()))),
        UnlockAction::QueryServiceRunning
    );
    assert_eq!(flow.on_event(UnlockEvent::ServiceRunning(false)), UnlockAction::StartService);
    assert_eq!(flow.on_event(UnlockEvent::Completed), UnlockAction::Sleep { millis: 300 });
    assert_eq!(flow.on_event(UnlockEvent::Completed), UnlockAction::SendLaunchRequest);
    assert_eq!(
        flow.on_event(UnlockEvent::Replied(Err("again".into()))),
        UnlockAction::Finish(Err("again".into()))
    );
}

#[test]
fn unlock_flow_keeps_first_error_when_service_runs() {
    let (mut flow, _) = UnlockFlow::start();
    flow.on_event(UnlockEvent::ServiceRunning(true));
    flow.on_event(UnlockEvent::Replied(Err("busy".into())));
    assert_eq!(
        flow.on_event(UnlockEvent::ServiceRunning(true)),
        UnlockAction::Finish(Err("busy".into()))
    );
}

#[test]
fn unlock_flow_settles_after_service_comes_up() {
    let (mut flow, _) = UnlockFlow::start();
    flow.on_event(UnlockEvent::ServiceRunning(false));
    flow.on_event(UnlockEvent::Completed);
    assert_eq!(flow.on_event(UnlockEvent::ServiceRunning(true)), UnlockAction::Sleep { millis: 150 });
    assert_eq!(flow.on_event(UnlockEvent::Completed), UnlockAction::SendLaunchRequest);
    // An event that does not fit repeats the pending action.
    assert_eq!(flow.on_event(UnlockEvent::Completed), UnlockAction::SendLaunchRequest);
}

#[test]
fn prompt_launches_only_on_success() {
    assert_eq!(prompt_after_reply(&Ok(IpcResponse::Success)), PromptOutcome::Launch);
    assert_eq!(
        prompt_after_reply(&Ok(IpcResponse::WrongPassword)),
        PromptOutcome::ShowError("Password salah! Coba lagi.".into())
    );
    assert_eq!(
        prompt_after_reply(&Ok(IpcResponse::Error("x".into()))),
        PromptOutcome::ShowError("Terjadi kesalahan: Error(\"x\")".into())
    );
    assert_eq!(
        prompt_after_reply(&Err("offline".into())),
        PromptOutcome::ShowError("Service tidak merespons (offline). Buka Management Panel.".into())
    );
}
