use app_locker::cli::{file_name_of, parse_cli_args, AppMode};

#[test]
fn test_cli_parsing_service() {
    let args = vec!["app_locker.exe".into(), "--service".into()];
    assert_eq!(parse_cli_args(&args), AppMode::Service);
}

#[test]
fn test_cli_parsing_management_panel() {
    let args = vec!["app_locker.exe".into()];
    assert_eq!(parse_cli_args(&args), AppMode::ManagementPanel);

    let args_unknown = vec!["app_locker.exe".into(), "--other".into()];
    assert_eq!(parse_cli_args(&args_unknown), AppMode::ManagementPanel);
}

#[test]
fn test_cli_parsing_interceptor() {
    let args = vec![
        "app_locker.exe".into(),
        "--interceptor".into(),
        "C:\\Program Files\\App\\target.exe".into(),
        "--flag".into(),
        "document.txt".into(),
    ];
    assert_eq!(
        parse_cli_args(&args),
        AppMode::Interceptor {
            app_name: "target.exe".into(),
            app_path: "C:\\Program Files\\App\\target.exe".into(),
            forward_args: vec!["--flag".into(), "document.txt".into()],
        }
    );
}

#[test]
fn test_cli_parsing_interceptor_no_extra_args() {
    let args = vec![
        "app_locker.exe".into(),
        "--interceptor".into(),
        "notepad.exe".into(),
    ];
    assert_eq!(
        parse_cli_args(&args),
        AppMode::Interceptor {
            app_name: "notepad.exe".into(),
            app_path: "notepad.exe".into(),
            forward_args: vec![],
        }
    );
}

#[test]
fn test_cli_parsing_complex_paths_and_quotes() {
    let args = vec![
        "app_locker.exe".into(),
        "--interceptor".into(),
        "C:\\Program Files (x86)\\Google\\Chrome\\Application\\chrome.exe".into(),
        "--profile-directory=\"Profile 1\"".into(),
        "--flag=value with spaces".into(),
    ];
    assert_eq!(
        parse_cli_args(&args),
        AppMode::Interceptor {
            app_name: "chrome.exe".into(),
            app_path: "C:\\Program Files (x86)\\Google\\Chrome\\Application\\chrome.exe".into(),
            forward_args: vec![
                "--profile-directory=\"Profile 1\"".into(),
                "--flag=value with spaces".into()
            ],
        }
    );
}

#[test]
fn test_cli_parsing_chromium_child_process_args() {
    let args = vec![
        "app_locker.exe".into(),
        "--interceptor".into(),
        "C:\\Program Files\\Google\\Chrome\\Application\\chrome.exe".into(),
        "--type=utility".into(),
        "--utility-sub-type=network.mojom.NetworkService".into(),
        "--mojo-platform-channel-handle=2204".into(),
    ];
    let parsed = parse_cli_args(&args);
    match parsed {
        AppMode::Interceptor {
            app_name,
            app_path,
            forward_args,
        } => {
            assert_eq!(app_name, "chrome.exe");
            assert_eq!(app_path, "C:\\Program Files\\Google\\Chrome\\Application\\chrome.exe");
            assert_eq!(forward_args.len(), 3);
            assert!(forward_args.iter().any(|arg| arg.starts_with("--type=")));
        }
        _ => panic!("Expected AppMode::Interceptor"),
    }
}

#[test]
fn cli_interceptor_without_path_uses_unknown_name() {
    let args: Vec<String> = vec!["app_locker.exe".into(), "--interceptor".into()];
    assert_eq!(
        parse_cli_args(&args),
        AppMode::Interceptor {
            app_name: "unknown.exe".into(),
            app_path: "".into(),
            forward_args: vec![],
        }
    );
}

#[test]
fn cli_interceptor_lowercases_and_uses_windows_separators() {
    let args: Vec<String> = vec![
        "app_locker.exe".into(),
        "--interceptor".into(),
        "D:/Tools/Sub\\NOTEPAD.EXE\\".into(),
    ];
    match parse_cli_args(&args) {
        AppMode::Interceptor { app_name, .. } => assert_eq!(app_name, "notepad.exe"),
        _ => panic!("Expected AppMode::Interceptor"),
    }
}

#[test]
fn file_name_edge_cases() {
    assert_eq!(file_name_of("C:\\a\\b.exe"), Some("b.exe".to_string()));
    assert_eq!(file_name_of("C:b.exe"), Some("b.exe".to_string()));
    assert_eq!(file_name_of("C:"), None);
    assert_eq!(file_name_of("C:\\"), None);
    assert_eq!(file_name_of(""), None);
    assert_eq!(file_name_of("a\\.."), None);
    assert_eq!(file_name_of("a\\b\\."), Some("b".to_string()));
    assert_eq!(file_name_of(".\\x.exe"), Some("x.exe".to_string()));
    assert_eq!(file_name_of("."), None);
    assert_eq!(file_name_of("dir/"), Some("dir".to_string()));
}

#[test]
fn service_flag_must_be_second_argument() {
    let args: Vec<String> = vec!["app_locker.exe".into(), "x".into(), "--service".into()];
    assert_eq!(parse_cli_args(&args), AppMode::ManagementPanel);
}

#[test]
fn file_name_after_unc_device_and_verbatim_prefixes() {
    assert_eq!(file_name_of("\\\\server\\share"), None);
    assert_eq!(file_name_of("\\\\server\\share\\"), None);
    assert_eq!(file_name_of("\\\\server\\share\\dir\\App.exe"), Some("App.exe".to_string()));
    assert_eq!(file_name_of("//server/share/x.exe"), Some("x.exe".to_string()));
    assert_eq!(file_name_of("\\\\server"), Some("server".to_string()));
    assert_eq!(file_name_of("\\\\?\\C:\\Program Files\\x.exe"), Some("x.exe".to_string()));
    assert_eq!(file_name_of("\\\\?\\C:\\a/b.exe"), Some("a/b.exe".to_string()));
    assert_eq!(file_name_of("\\\\?\\C:\\a\\."), None);
    assert_eq!(file_name_of("\\\\?\\UNC\\srv\\share"), None);
    assert_eq!(file_name_of("\\\\?\\UNC\\srv\\share\\y.exe"), Some("y.exe".to_string()));
    assert_eq!(file_name_of("\\\\?\\pictures"), None);
    assert_eq!(file_name_of("\\\\.\\COM1"), None);
    assert_eq!(file_name_of("\\\\.\\C:\\z.exe"), Some("z.exe".to_string()));
}

#[test]
fn interceptor_on_unc_share_uses_unknown_name() {
    let args: Vec<String> =
        vec!["app_locker.exe".into(), "--interceptor".into(), "\\\\server\\share".into()];
    match parse_cli_args(&args) {
        AppMode::Interceptor { app_name, .. } => assert_eq!(app_name, "unknown.exe"),
        other => panic!("unexpected {:?}", other),
    }
}
