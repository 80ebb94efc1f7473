use luauncher::gate::{
    command, default_settings, exit, exit_code, message_box, CommandDecision, Dialog,
    DialogButtons, ExitDecision, Settings, SettingsLoad, DENIED_EXIT_CODE,
};
use luauncher::invocation::Invocation;
use luauncher::platform::Platform;

fn settings(dev: bool, close: bool) -> SettingsLoad {
    SettingsLoad::Loaded(Settings { dark: true, dev, close, iconupdates: false })
}

#[test]
fn exit_with_close_on_exit_ends_the_host_with_the_code() {
    assert_eq!(exit(Some(7), &settings(false, true)), ExitDecision::Terminate(7));
    assert_eq!(exit(Some(0), &settings(true, true)), ExitDecision::Terminate(0));
    assert_eq!(exit(None, &settings(true, true)), ExitDecision::Terminate(0));
}

#[test]
fn exit_without_close_on_exit_keeps_the_host_running() {
    assert_eq!(exit(Some(7), &settings(false, false)), ExitDecision::KeepRunning);
    assert_eq!(exit(None, &settings(true, false)), ExitDecision::KeepRunning);
}

#[test]
fn exit_without_settings_keeps_the_host_running() {
    assert_eq!(exit(Some(7), &SettingsLoad::Missing), ExitDecision::SettingsMissing);
}

#[test]
fn exit_fails_when_the_settings_cannot_be_read() {
    assert_eq!(
        exit(Some(7), &SettingsLoad::Failed("expected value at line 1 column 1".to_string())),
        ExitDecision::Failed(
            "Failed to load settings: expected value at line 1 column 1".to_string()
        )
    );
}

#[test]
fn exit_code_fits_the_script_number_into_a_process_code() {
    assert_eq!(exit_code(None), 0);
    assert_eq!(exit_code(Some(0)), 0);
    assert_eq!(exit_code(Some(7)), 7);
    assert_eq!(exit_code(Some(99)), 99);
    assert_eq!(exit_code(Some(2147483647)), 2147483647);
    assert_eq!(exit_code(Some(2147483648)), 1);
    assert_eq!(exit_code(Some(u64::MAX)), 1);
}

#[test]
fn command_runs_in_developer_mode() {
    for close in [false, true] {
        assert_eq!(
            command(Platform::Windows, "dir & pause", &settings(true, close)),
            CommandDecision::Run(Invocation {
                program: "cmd".to_string(),
                args: vec!["/C".to_string(), "dir & pause".to_string()],
            })
        );
        assert_eq!(
            command(Platform::Linux, "ls", &settings(true, close)),
            CommandDecision::Run(Invocation {
                program: "sh".to_string(),
                args: vec!["-c".to_string(), "ls".to_string()],
            })
        );
    }
}

#[test]
fn command_is_refused_without_developer_mode() {
    let expected = CommandDecision::Deny {
        dialog: Dialog {
            title: "Developer mod off".to_string(),
            description: "Script attempted to run \"runCommand\" on your computer without Developer mod on. For your safety, the script wasn't allowed to run their command.".to_string(),
            buttons: DialogButtons::OkOnly,
        },
        exit_code: 99,
    };
    for platform in [Platform::Windows, Platform::MacOS, Platform::Linux] {
        for close in [false, true] {
            assert_eq!(command(platform, "rm -rf /", &settings(false, close)), expected);
        }
    }
}

#[test]
fn a_refused_command_ends_the_host_with_code_99() {
    assert_eq!(DENIED_EXIT_CODE, 99);
    for close in [false, true] {
        match command(Platform::Linux, "ls", &settings(false, close)) {
            CommandDecision::Deny { exit_code, .. } => assert_eq!(exit_code, 99),
            other => panic!("the command was not refused: {other:?}"),
        }
    }
}

#[test]
fn a_refused_command_does_not_ask_for_close_on_exit() {
    assert_eq!(exit(Some(99), &settings(false, false)), ExitDecision::KeepRunning);
    assert_eq!(
        command(Platform::Windows, "dir", &settings(false, false)),
        command(Platform::Windows, "dir", &settings(false, true))
    );
}

#[test]
fn command_runs_nothing_without_settings() {
    assert_eq!(command(Platform::Linux, "ls", &SettingsLoad::Missing), CommandDecision::SettingsMissing);
    assert_eq!(
        command(Platform::Linux, "ls", &SettingsLoad::Failed("EOF".to_string())),
        CommandDecision::Failed("Failed to load settings: EOF".to_string())
    );
}

#[test]
fn message_box_has_one_button() {
    assert_eq!(
        message_box("Title".to_string(), "Body text".to_string()),
        Dialog {
            title: "Title".to_string(),
            description: "Body text".to_string(),
            buttons: DialogButtons::OkOnly
        }
    );
}

#[test]
fn a_fresh_installation_refuses_commands_and_closes_on_exit() {
    let fresh = default_settings();
    assert_eq!(fresh, Settings { dark: true, dev: false, close: true, iconupdates: false });
    let load = SettingsLoad::Loaded(fresh);
    assert!(matches!(command(Platform::Windows, "dir", &load), CommandDecision::Deny { .. }));
    assert_eq!(exit(Some(3), &load), ExitDecision::Terminate(3));
}
