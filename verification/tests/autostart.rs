use protoncode::autostart::{
    current_registration, disable, enable, enabled, format_autostart_command, has_autostart_flag,
    is_enabled, sync_launch_on_startup, AutostartAction, AutostartError, Platform,
    RunValueRead, RunValueRemoved, RunValueWritten, APP_RUN_KEY_VALUE, AUTOSTART_FLAG,
    RUN_KEY_PATH,
};

#[test]
fn detects_autostart_flag() {
    assert!(has_autostart_flag(&["protoncode.exe", AUTOSTART_FLAG]));
    assert!(!has_autostart_flag(&["protoncode.exe"]));
}

#[test]
fn formats_command_with_quotes() {
    let command = format_autostart_command(r"C:\Program Files\protoncode\protoncode.exe");
    assert_eq!(
        command,
        format!(r#""C:\Program Files\protoncode\protoncode.exe" {AUTOSTART_FLAG}"#)
    );
}

#[test]
fn registry_value_is_as_documented() {
    assert_eq!(AUTOSTART_FLAG, "--autostart");
    assert_eq!(APP_RUN_KEY_VALUE, "protoncode");
    assert_eq!(RUN_KEY_PATH.to_lowercase(), r"software\microsoft\windows\currentversion\run");
}

#[test]
fn flag_has_to_match_exactly() {
    assert!(!has_autostart_flag(&["--autostart=yes", "autostart"]));
    assert!(!has_autostart_flag(&[]));
}

#[test]
fn only_windows_changes_the_registry() {
    assert_eq!(sync_launch_on_startup(Platform::Windows, true), AutostartAction::Enable);
    assert_eq!(sync_launch_on_startup(Platform::Windows, false), AutostartAction::Disable);
    assert_eq!(sync_launch_on_startup(Platform::Other, true), AutostartAction::Nothing);
}

#[test]
fn registration_is_read() {
    let read = |value: RunValueRead| current_registration(Platform::Windows, value);
    assert_eq!(read(RunValueRead::Value("cmd".to_owned())), Ok(Some("cmd".to_owned())));
    assert_eq!(read(RunValueRead::KeyMissing), Ok(None));
    assert_eq!(read(RunValueRead::ValueMissing), Ok(None));
    assert_eq!(read(RunValueRead::KeyFailed), Err(AutostartError::OpenKey));
    assert_eq!(read(RunValueRead::ValueFailed), Err(AutostartError::ReadValue));
    assert_eq!(
        current_registration(Platform::Other, RunValueRead::Value("cmd".to_owned())),
        Ok(None)
    );
}

#[test]
fn any_registration_counts_as_enabled() {
    assert_eq!(is_enabled(Platform::Windows, RunValueRead::Value(String::new())), Ok(true));
    assert_eq!(is_enabled(Platform::Windows, RunValueRead::ValueMissing), Ok(false));
    assert_eq!(
        is_enabled(Platform::Windows, RunValueRead::KeyFailed),
        Err(AutostartError::OpenKey)
    );
    assert_eq!(is_enabled(Platform::Other, RunValueRead::Value(String::new())), Ok(false));
}

#[test]
fn enabling_and_disabling_report_failures() {
    assert_eq!(enable(Some("x")), Ok("\"x\" --autostart".to_owned()));
    assert_eq!(enable(None), Err(AutostartError::ExecutablePath));
    assert_eq!(enabled(RunValueWritten::Done), Ok(()));
    assert_eq!(enabled(RunValueWritten::KeyFailed), Err(AutostartError::CreateKey));
    assert_eq!(enabled(RunValueWritten::ValueFailed), Err(AutostartError::WriteValue));
    assert_eq!(disable(RunValueRemoved::Done), Ok(()));
    assert_eq!(disable(RunValueRemoved::KeyMissing), Ok(()));
    assert_eq!(disable(RunValueRemoved::ValueMissing), Ok(()));
    assert_eq!(disable(RunValueRemoved::KeyFailed), Err(AutostartError::OpenKeyForRemoval));
    assert_eq!(disable(RunValueRemoved::ValueFailed), Err(AutostartError::RemoveValue));
}

#[test]
fn autostart_errors_have_words() {
    for (error, message) in [
        (AutostartError::OpenKey, "failed to open Windows Run key"),
        (AutostartError::ReadValue, "failed to read protoncode run key value"),
        (AutostartError::ExecutablePath, "failed to resolve current executable path"),
        (AutostartError::CreateKey, "failed to open or create Windows Run key"),
        (AutostartError::WriteValue, "failed to write protoncode run key value"),
        (AutostartError::OpenKeyForRemoval, "failed to open Windows Run key for removal"),
        (AutostartError::RemoveValue, "failed to remove protoncode run key value"),
    ] {
        assert_eq!(error.message(), message);
    }
}
