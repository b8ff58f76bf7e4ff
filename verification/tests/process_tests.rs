use app_locker::process::{
    build_command_line, launch_bypassing_ifeo, protect_current_process, OsOutcome, ProcessCall,
    ProcessError, ProcessNext,
};

#[test]
fn command_line_quotes_path_and_spaced_args() {
    let args = vec!["/C".to_string(), "echo test".to_string()];
    assert_eq!(build_command_line("cmd.exe", &args), "\"cmd.exe\" /C \"echo test\"");
    assert_eq!(build_command_line("C:\\a b\\x.exe", &[]), "\"C:\\a b\\x.exe\"");
}

#[test]
fn test_launch_bypassing_ifeo() {
    let args = vec!["/C".to_string(), "echo test".to_string()];
    let mut outs = vec![];
    assert_eq!(
        launch_bypassing_ifeo("cmd.exe", &args, &outs),
        ProcessNext::Call(ProcessCall::CreateDebugged { command_line: "\"cmd.exe\" /C \"echo test\"".into() })
    );
    outs.push(OsOutcome::Done { value: 1234 });
    assert_eq!(launch_bypassing_ifeo("cmd.exe", &args, &outs), ProcessNext::Call(ProcessCall::KeepAliveOnDetach));
    outs.push(OsOutcome::Done { value: 0 });
    assert_eq!(
        launch_bypassing_ifeo("cmd.exe", &args, &outs),
        ProcessNext::Call(ProcessCall::WaitForDebugEvent { timeout_millis: 2000 })
    );
    outs.push(OsOutcome::Done { value: 0 });
    assert_eq!(launch_bypassing_ifeo("cmd.exe", &args, &outs), ProcessNext::Call(ProcessCall::ContinueDebugEvent));
    outs.push(OsOutcome::Done { value: 0 });
    assert_eq!(
        launch_bypassing_ifeo("cmd.exe", &args, &outs),
        ProcessNext::Call(ProcessCall::DetachDebugger { process_id: 1234 })
    );
    outs.push(OsOutcome::Done { value: 0 });
    let res = launch_bypassing_ifeo("cmd.exe", &args, &outs);
    assert_eq!(res, ProcessNext::Finish(Ok(1234)));
    match res {
        ProcessNext::Finish(Ok(pid)) => assert!(pid > 0),
        other => panic!("launch_bypassing_ifeo failed: {:?}", other),
    }
}

#[test]
fn launch_without_debug_event_skips_continue() {
    let outs = vec![
        OsOutcome::Done { value: 7 },
        OsOutcome::Done { value: 0 },
        OsOutcome::Failed { message: "timeout".into() },
    ];
    assert_eq!(launch_bypassing_ifeo("a.exe", &[], &outs), ProcessNext::Call(ProcessCall::DetachDebugger { process_id: 7 }));
    let mut done = outs.clone();
    done.push(OsOutcome::Done { value: 0 });
    assert_eq!(launch_bypassing_ifeo("a.exe", &[], &done), ProcessNext::Finish(Ok(7)));
}

#[test]
fn launch_failure_is_reported() {
    let outs = vec![OsOutcome::Failed { message: "not found".into() }];
    assert_eq!(
        launch_bypassing_ifeo("a.exe", &[], &outs),
        ProcessNext::Finish(Err(ProcessError::LaunchFailed("not found".into())))
    );
}

#[test]
fn test_protect_current_process() {
    assert_eq!(protect_current_process(&vec![]), ProcessNext::Call(ProcessCall::BuildProcessDescriptor));
    let ok = OsOutcome::Done { value: 0 };
    assert_eq!(protect_current_process(&vec![ok.clone()]), ProcessNext::Call(ProcessCall::ApplyProcessDescriptor));
    let res = protect_current_process(&vec![ok.clone(), ok]);
    assert!(matches!(res, ProcessNext::Finish(Ok(()))), "protect_current_process failed: {:?}", res);
}

#[test]
fn protect_reports_descriptor_and_apply_failures() {
    let ok = OsOutcome::Done { value: 0 };
    assert_eq!(
        protect_current_process(&vec![OsOutcome::Failed { message: "bad sddl".into() }]),
        ProcessNext::Finish(Err(ProcessError::DescriptorFailed("bad sddl".into())))
    );
    assert_eq!(
        protect_current_process(&vec![ok, OsOutcome::Failed { message: "denied".into() }]),
        ProcessNext::Finish(Err(ProcessError::ApplyFailed("denied".into())))
    );
}
