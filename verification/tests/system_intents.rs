use qx::context::Context;
use qx::intent::{CommandCreationType, CommandIntent};
use qx::system::{Platform, System};

fn bare_system() -> System {
    System::new(None, None, None, None, None, false, Platform::Other)
}

#[test]
fn browser_override_appends_target_last() {
    let sys = System::new(
        Some("firefox".to_string()),
        Some(vec!["--new-window".to_string()]),
        None,
        None,
        None,
        false,
        Platform::Other,
    );
    let intent = sys.open_web_browser(&"https://example.org/".to_string());
    match intent {
        CommandIntent::Custom { target, arguments, working_directory, creation_type } => {
            assert_eq!(target, "firefox");
            assert_eq!(arguments, vec!["--new-window".to_string(), "https://example.org/".to_string()]);
            assert_eq!(working_directory, None);
            assert_eq!(creation_type, CommandCreationType::Detach);
        }
        _ => panic!("expected a custom intent"),
    }
}

#[test]
fn browser_default_is_system_open() {
    let sys = bare_system();
    let intent = sys.open_web_browser(&"https://example.org/".to_string());
    match intent {
        CommandIntent::System { target, creation_type } => {
            assert_eq!(target, "https://example.org/");
            assert_eq!(creation_type, CommandCreationType::Detach);
        }
        _ => panic!("expected a system intent"),
    }
}

#[test]
fn editor_waits_for_the_user() {
    let sys = System::new(
        None,
        None,
        Some("vim".to_string()),
        Some(vec!["-n".to_string()]),
        None,
        false,
        Platform::Other,
    );
    let intent = sys.open_editor(&"notes.txt".to_string());
    match intent {
        CommandIntent::Custom { target, arguments, creation_type, .. } => {
            assert_eq!(target, "vim");
            assert_eq!(arguments, vec!["-n".to_string(), "notes.txt".to_string()]);
            assert_eq!(creation_type, CommandCreationType::Wait);
        }
        _ => panic!("expected a custom intent"),
    }

    let fallback = bare_system().open_editor(&"notes.txt".to_string());
    match fallback {
        CommandIntent::System { target, creation_type } => {
            assert_eq!(target, "notes.txt");
            assert_eq!(creation_type, CommandCreationType::Wait);
        }
        _ => panic!("expected a system intent"),
    }
}

#[test]
fn open_file_always_uses_system_handler() {
    let intent = bare_system().open_file(&"/tmp/thing".to_string());
    match intent {
        CommandIntent::System { target, creation_type } => {
            assert_eq!(target, "/tmp/thing");
            assert_eq!(creation_type, CommandCreationType::Detach);
        }
        _ => panic!("expected a system intent"),
    }
}

#[test]
fn vscode_remote_target_gets_folder_uri_flag() {
    let sys = System::new(
        None,
        None,
        None,
        None,
        Some("/usr/bin/code".to_string()),
        false,
        Platform::Other,
    );
    let env = Context::empty();
    let intent = sys.open_vscode(&"vscode-remote://host/path".to_string(), &env);
    match intent {
        CommandIntent::Custom { target, arguments, working_directory, creation_type } => {
            assert_eq!(target, "/usr/bin/code");
            assert_eq!(
                arguments,
                vec!["--folder-uri".to_string(), "vscode-remote://host/path".to_string()]
            );
            assert_eq!(working_directory, None);
            assert_eq!(creation_type, CommandCreationType::Detach);
        }
        _ => panic!("expected a custom intent"),
    }
}

#[test]
fn vscode_plain_target_passes_target_only() {
    let env = Context::empty();
    let intent = bare_system().open_vscode(&"/work/repo".to_string(), &env);
    match intent {
        CommandIntent::Custom { target, arguments, creation_type, .. } => {
            assert_eq!(target, "code");
            assert_eq!(arguments, vec!["/work/repo".to_string()]);
            assert_eq!(creation_type, CommandCreationType::Detach);
        }
        _ => panic!("expected a custom intent"),
    }
}

#[test]
fn vscode_windows_default_reads_environment() {
    let sys = System::new(None, None, None, None, None, false, Platform::Windows);
    let env = Context::new(vec![(
        "LOCALAPPDATA".to_string(),
        "C:\\Users\\someone\\AppData\\Local".to_string(),
    )]);
    let intent = sys.open_vscode(&"C:\\work".to_string(), &env);
    match intent {
        CommandIntent::Custom { target, arguments, .. } => {
            assert_eq!(
                target,
                "C:\\Users\\someone\\AppData\\Local\\Programs\\Microsoft VS Code\\Code.exe"
            );
            assert_eq!(arguments, vec!["C:\\work".to_string()]);
        }
        _ => panic!("expected a custom intent"),
    }
}

#[test]
fn interactive_default_flag_is_reported() {
    assert!(!bare_system().should_defaults_to_interactive());
    let sys = System::new(None, None, None, None, None, true, Platform::Other);
    assert!(sys.should_defaults_to_interactive());
}

#[test]
fn detach_is_the_default_creation_mode() {
    assert_eq!(CommandCreationType::detach(), CommandCreationType::Detach);
}
