use luauncher::calls::{plan, Call, Reply, Step};
use luauncher::gate::message_box;
use luauncher::inspector::{is_app_open, is_window_open, QueryError};
use luauncher::invocation::{close_app, force_close_app, open_app, open_url};
use luauncher::platform::Platform;
use luauncher::registry::{BindingKind, Capability};
use luauncher::wait::{
    wait_app_opened, wait_until_app_closed, wait_until_window_closed, wait_window_opened,
};

const PLATFORMS: [Platform; 3] = [Platform::Windows, Platform::MacOS, Platform::Linux];

fn one_call_of_each() -> Vec<Call> {
    let s = || "a&b".to_string();
    vec![
        Call::OpenApp(s()),
        Call::CloseApp(s()),
        Call::ForceCloseApp(s()),
        Call::IsAppOpen(s()),
        Call::IsWindowOpen(s()),
        Call::OpenUrl(s()),
        Call::Exit(Some(7)),
        Call::RunCommand(s()),
        Call::WaitUntilWindowClose(s()),
        Call::WaitUntilAppClose(s()),
        Call::WaitUntilWindowOpen(s(), 250),
        Call::WaitUntilAppOpen(s(), 250),
        Call::Sleep(30),
        Call::MessageBox(s(), s()),
    ]
}

#[test]
fn every_capability_but_the_constant_has_a_call() {
    let called: Vec<Capability> = one_call_of_each().iter().map(|c| c.capability()).collect();
    let mut all = Capability::all();
    assert_eq!(all.pop(), Some(Capability::System));
    assert_eq!(called, all);
}

#[test]
fn open_app_and_open_url_are_started_and_not_waited_for() {
    for platform in PLATFORMS {
        assert_eq!(
            plan(platform, Call::OpenApp("a&b".to_string())),
            Step::Spawn { invocation: open_app(platform, "a&b"), reply: Reply::Nothing }
        );
        assert_eq!(
            plan(platform, Call::OpenUrl("http://x/?a&b".to_string())),
            Step::Spawn { invocation: open_url(platform, "http://x/?a&b"), reply: Reply::True }
        );
    }
}

#[test]
fn closing_runs_to_its_end() {
    for platform in PLATFORMS {
        assert_eq!(
            plan(platform, Call::CloseApp("a&b".to_string())),
            Step::RunToEnd(close_app(platform, "a&b"))
        );
        assert_eq!(
            plan(platform, Call::ForceCloseApp("a&b".to_string())),
            Step::RunToEnd(force_close_app(platform, "a&b"))
        );
    }
}

#[test]
fn questions_are_put_to_the_host() {
    for platform in PLATFORMS {
        assert_eq!(
            plan(platform, Call::IsAppOpen("a&b".to_string())),
            Step::Ask(is_app_open(platform, "a&b"))
        );
        assert_eq!(
            plan(platform, Call::IsWindowOpen("a&b".to_string())),
            Step::Ask(is_window_open(platform, "a&b").unwrap())
        );
    }
}

#[test]
fn a_title_with_a_nul_is_refused_on_windows_only() {
    let call = Call::IsWindowOpen("a\0b".to_string());
    assert_eq!(plan(Platform::Windows, call.clone()), Step::Refuse(QueryError::NulInTitle));
    assert!(matches!(plan(Platform::MacOS, call.clone()), Step::Ask(_)));
    assert!(matches!(plan(Platform::Linux, call), Step::Ask(_)));
}

#[test]
fn exit_and_run_command_wait_for_the_settings() {
    for platform in PLATFORMS {
        assert_eq!(plan(platform, Call::Exit(Some(7))), Step::Exit(Some(7)));
        assert_eq!(plan(platform, Call::Exit(None)), Step::Exit(None));
        assert_eq!(
            plan(platform, Call::RunCommand("rm -rf /".to_string())),
            Step::Command("rm -rf /".to_string())
        );
    }
}

#[test]
fn waits_start_fresh() {
    for platform in PLATFORMS {
        assert_eq!(
            plan(platform, Call::WaitUntilWindowClose("w".to_string())),
            Step::Wait(wait_until_window_closed("w"))
        );
        assert_eq!(
            plan(platform, Call::WaitUntilAppClose("p".to_string())),
            Step::Wait(wait_until_app_closed("p"))
        );
        assert_eq!(
            plan(platform, Call::WaitUntilWindowOpen("w".to_string(), 250)),
            Step::Wait(wait_window_opened("w", 250))
        );
        assert_eq!(
            plan(platform, Call::WaitUntilAppOpen("p".to_string(), 0)),
            Step::Wait(wait_app_opened("p", 0))
        );
    }
}

#[test]
fn sleep_and_message_box_are_what_they_say() {
    assert_eq!(plan(Platform::Linux, Call::Sleep(1500)), Step::Sleep(1500));
    assert_eq!(
        plan(Platform::Linux, Call::MessageBox("T".to_string(), "B".to_string())),
        Step::Show(message_box("T".to_string(), "B".to_string()))
    );
}

#[test]
fn the_script_is_suspended_exactly_in_the_calls_bound_async() {
    for platform in PLATFORMS {
        for call in one_call_of_each() {
            let suspends = call.capability().kind() == BindingKind::AsyncFunction;
            let step = plan(platform, call);
            assert_eq!(matches!(step, Step::Wait(_) | Step::Sleep(_)), suspends, "{step:?}");
        }
    }
}
