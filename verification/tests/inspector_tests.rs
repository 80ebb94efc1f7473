use luauncher::inspector::{
    is_app_open, is_process_running, is_window_open, CommandOutcome, Probe, QueryError, Reading,
};
use luauncher::invocation::Invocation;
use luauncher::platform::Platform;

fn run(program: &str, args: &[&str], reading: Reading) -> Probe {
    Probe::Run {
        invocation: Invocation {
            program: program.to_string(),
            args: args.iter().map(|a| a.to_string()).collect(),
        },
        reading,
    }
}

fn outcome(success: bool, output: &str) -> CommandOutcome {
    CommandOutcome { success, output: output.to_string() }
}

const WINDOW_LIST: &str =
    "tell application \"System Events\" to get the name of every window of every process";

#[test]
fn is_app_open_on_windows_searches_for_the_name_as_written() {
    assert_eq!(
        is_app_open(Platform::Windows, "a&b.exe"),
        run(
            "tasklist",
            &["/FI", "IMAGENAME eq a^&b.exe"],
            Reading::OutputContains("a&b.exe".to_string())
        )
    );
}

#[test]
fn is_process_running_on_windows_searches_for_the_name_as_written() {
    assert_eq!(
        is_process_running(Platform::Windows, "a&b.exe"),
        run(
            "tasklist",
            &["/FI", "IMAGENAME eq a^&b.exe"],
            Reading::OutputContains("a&b.exe".to_string())
        )
    );
}

#[test]
fn there_is_one_question_about_a_process() {
    for platform in [Platform::Windows, Platform::MacOS, Platform::Linux] {
        for name in ["", "&", "a&b.exe", "game.exe", "my game"] {
            assert_eq!(is_process_running(platform, name), is_app_open(platform, name));
        }
    }
    let listed = outcome(true, "&");
    for probe in [is_app_open(Platform::Windows, "&"), is_process_running(Platform::Windows, "&")] {
        match probe {
            Probe::Run { reading, .. } => assert!(reading.holds(&listed)),
            Probe::FindWindow { .. } => panic!("a process is asked for by a command"),
        }
    }
}

#[test]
fn process_probes_on_unix_go_by_the_exit_status_of_pgrep() {
    for platform in [Platform::MacOS, Platform::Linux] {
        let expected = run("pgrep", &["-f", "my game"], Reading::ExitSuccess);
        assert_eq!(is_app_open(platform, "my game"), expected);
        assert_eq!(is_process_running(platform, "my game"), expected);
    }
}

#[test]
fn is_window_open_on_windows_looks_the_exact_title_up() {
    assert_eq!(
        is_window_open(Platform::Windows, "My Game"),
        Ok(Probe::FindWindow { title: "My Game".to_string() })
    );
}

#[test]
fn is_window_open_on_windows_refuses_a_nul_in_the_title() {
    assert_eq!(is_window_open(Platform::Windows, "My\0Game"), Err(QueryError::NulInTitle));
    assert_eq!(is_window_open(Platform::Windows, "\0"), Err(QueryError::NulInTitle));
}

#[test]
fn is_window_open_elsewhere_takes_a_nul_in_the_title() {
    assert!(is_window_open(Platform::MacOS, "My\0Game").is_ok());
    assert!(is_window_open(Platform::Linux, "My\0Game").is_ok());
}

#[test]
fn is_window_open_on_macos_lists_all_titles() {
    assert_eq!(
        is_window_open(Platform::MacOS, "My Game"),
        Ok(run("osascript", &["-e", WINDOW_LIST], Reading::OutputContains("My Game".to_string())))
    );
}

#[test]
fn is_window_open_on_linux_searches_by_name() {
    assert_eq!(
        is_window_open(Platform::Linux, "My Game"),
        Ok(run("xdotool", &["search", "--name", "My Game"], Reading::OutputNotBlank))
    );
}

#[test]
fn exit_success_reads_the_status_only() {
    assert!(Reading::ExitSuccess.holds(&outcome(true, "")));
    assert!(!Reading::ExitSuccess.holds(&outcome(false, "4242\n")));
}

#[test]
fn output_contains_matches_by_part_of_the_text() {
    let task_list = "\nImage Name   PID\n========= ====\ngame.exe    4242 Console\n";
    let reading = Reading::OutputContains("game.exe".to_string());
    assert!(reading.holds(&outcome(true, task_list)));
    assert!(reading.holds(&outcome(false, task_list)));
    assert!(Reading::OutputContains("game".to_string()).holds(&outcome(true, task_list)));
    let none = "INFO: No tasks are running which match the specified criteria.\n";
    assert!(!reading.holds(&outcome(true, none)));
    assert!(Reading::OutputContains("tasks".to_string()).holds(&outcome(true, none)));
}

#[test]
fn output_not_blank_ignores_white_space() {
    assert!(Reading::OutputNotBlank.holds(&outcome(true, "4194311\n")));
    assert!(Reading::OutputNotBlank.holds(&outcome(false, "4194311\n")));
    assert!(!Reading::OutputNotBlank.holds(&outcome(true, "")));
    assert!(!Reading::OutputNotBlank.holds(&outcome(true, " \n\t")));
}

#[test]
fn a_refused_title_says_why() {
    assert_eq!(QueryError::NulInTitle.message(), "nul byte found in window title");
}

#[test]
fn only_the_exit_status_reading_needs_no_output() {
    assert!(!Reading::ExitSuccess.reads_output());
    assert!(Reading::OutputContains("x".to_string()).reads_output());
    assert!(Reading::OutputNotBlank.reads_output());
}
