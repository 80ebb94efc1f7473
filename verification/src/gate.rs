//! The two decisions that rest on the persisted settings: whether a script
//! may run a command of its own choosing, and whether the launcher ends when
//! a script says `exit`.
//!
//! `runCommand` is the one capability that can do anything, so it alone is
//! gated, by the single switch `dev`. A refused command ends the launcher
//! with code 99, once the user has been told. The settings are never kept
//! between two decisions: each function here takes what was read for this
//! one call.

use vstd::prelude::*;
use vstd::string::*;
use crate::invocation::{run_command, run_command_plan, Invocation, InvocationView};
use crate::platform::Platform;
use crate::text::join;

verus! {

/// The exit code with which the launcher ends after it has refused a
/// command.
pub const DENIED_EXIT_CODE: i32 = 99;

/// The persisted switches, as they were read for one decision.
#[derive(Clone, Copy, Debug, PartialEq, Eq, Structural)]
pub struct Settings {
    /// Dark theme.
    pub dark: bool,
    /// Developer mode: scripts may use `runCommand`.
    pub dev: bool,
    /// Close on exit: the launcher ends when a script says `exit`.
    pub close: bool,
    /// Icons are extracted anew even where one is cached.
    pub iconupdates: bool,
}

/// What came of reading the settings.
#[derive(Clone, Debug, PartialEq, Eq)]
pub enum SettingsLoad {
    Loaded(Settings),
    /// Nothing is configured yet.
    Missing,
    /// The settings are there and could not be read; the text says why.
    Failed(String),
}

pub ghost enum SettingsLoadView {
    Loaded(Settings),
    Missing,
    Failed(Seq<char>),
}

impl View for SettingsLoad {
    type V = SettingsLoadView;

    open spec fn view(&self) -> SettingsLoadView {
        match self {
            SettingsLoad::Loaded(s) => SettingsLoadView::Loaded(*s),
            SettingsLoad::Missing => SettingsLoadView::Missing,
            SettingsLoad::Failed(why) => SettingsLoadView::Failed(why@),
        }
    }
}

/// What becomes of the launcher when a script says `exit`.
#[derive(Clone, Debug, PartialEq, Eq)]
pub enum ExitDecision {
    /// End the launcher with this exit code.
    Terminate(i32),
    /// Go on; the script's call returns.
    KeepRunning,
    /// Go on, and note on the terminal that no settings were found.
    SettingsMissing,
    /// Go on; the script's call fails with this message.
    Failed(String),
}

pub ghost enum ExitDecisionView {
    Terminate(i32),
    KeepRunning,
    SettingsMissing,
    Failed(Seq<char>),
}

impl View for ExitDecision {
    type V = ExitDecisionView;

    open spec fn view(&self) -> ExitDecisionView {
        match self {
            ExitDecision::Terminate(code) => ExitDecisionView::Terminate(*code),
            ExitDecision::KeepRunning => ExitDecisionView::KeepRunning,
            ExitDecision::SettingsMissing => ExitDecisionView::SettingsMissing,
            ExitDecision::Failed(message) => ExitDecisionView::Failed(message@),
        }
    }
}

/// The buttons of a modal dialog.
#[derive(Clone, Copy, Debug, PartialEq, Eq, Structural)]
pub enum DialogButtons {
    OkOnly,
    YesNo,
}

/// A modal dialog: the script, or the decision that asked for it, goes on
/// only when the user has dismissed it.
#[derive(Clone, Debug, PartialEq, Eq)]
pub struct Dialog {
    pub title: String,
    pub description: String,
    pub buttons: DialogButtons,
}

pub ghost struct DialogView {
    pub title: Seq<char>,
    pub description: Seq<char>,
    pub buttons: DialogButtons,
}

impl View for Dialog {
    type V = DialogView;

    open spec fn view(&self) -> DialogView {
        DialogView { title: self.title@, description: self.description@, buttons: self.buttons }
    }
}

/// What becomes of a script's `runCommand`.
#[derive(Clone, Debug, PartialEq, Eq)]
pub enum CommandDecision {
    /// Developer mode is on: run this command to its end.
    Run(Invocation),
    /// Developer mode is off: run nothing, show `dialog`, and when it is
    /// dismissed end the launcher with `exit_code`. A refusal always ends
    /// the launcher: close-on-exit is not asked, and the script's call never
    /// returns.
    Deny { dialog: Dialog, exit_code: i32 },
    /// Run nothing, and note on the terminal that no settings were found.
    SettingsMissing,
    /// Run nothing; the script's call fails with this message.
    Failed(String),
}

pub ghost enum CommandDecisionView {
    Run(InvocationView),
    Deny { dialog: DialogView, exit_code: i32 },
    SettingsMissing,
    Failed(Seq<char>),
}

impl View for CommandDecision {
    type V = CommandDecisionView;

    open spec fn view(&self) -> CommandDecisionView {
        match self {
            CommandDecision::Run(invocation) => CommandDecisionView::Run(invocation@),
            CommandDecision::Deny { dialog, exit_code } => CommandDecisionView::Deny {
                dialog: dialog@,
                exit_code: *exit_code,
            },
            CommandDecision::SettingsMissing => CommandDecisionView::SettingsMissing,
            CommandDecision::Failed(message) => CommandDecisionView::Failed(message@),
        }
    }
}

/// The exit code that `exit` asks for: 0 where the script gave none, the
/// script's number where a process can end with it, 1 where it is too large.
pub open spec fn exit_code_of(arg: Option<u64>) -> i32 {
    match arg {
        None => 0i32,
        Some(code) => if code <= i32::MAX {
            code as i32
        } else {
            1i32
        },
    }
}

/// The message with which a call fails when the settings cannot be read.
pub open spec fn load_failure(why: Seq<char>) -> Seq<char> {
    "Failed to load settings: "@ + why
}

/// The rule of `exit`: the launcher ends exactly when the settings were read
/// and `close` is on.
pub open spec fn exit_decision(arg: Option<u64>, settings: SettingsLoadView) -> ExitDecisionView {
    match settings {
        SettingsLoadView::Loaded(s) => if s.close {
            ExitDecisionView::Terminate(exit_code_of(arg))
        } else {
            ExitDecisionView::KeepRunning
        },
        SettingsLoadView::Missing => ExitDecisionView::SettingsMissing,
        SettingsLoadView::Failed(why) => ExitDecisionView::Failed(load_failure(why)),
    }
}

/// The dialog that tells the user that a command was refused.
pub open spec fn denial_dialog() -> DialogView {
    DialogView {
        title: "Developer mod off"@,
        description: "Script attempted to run \"runCommand\" on your computer without Developer mod on. For your safety, the script wasn't allowed to run their command."@,
        buttons: DialogButtons::OkOnly,
    }
}

/// The rule of `runCommand`: the command runs exactly when the settings were
/// read and `dev` is on. Where they were read and `dev` is off, the user is
/// told and the launcher is ended with code 99.
pub open spec fn command_decision(platform: Platform, cmd: Seq<char>, settings: SettingsLoadView)
    -> CommandDecisionView {
    match settings {
        SettingsLoadView::Loaded(s) => if s.dev {
            CommandDecisionView::Run(run_command_plan(platform, cmd))
        } else {
            CommandDecisionView::Deny { dialog: denial_dialog(), exit_code: DENIED_EXIT_CODE }
        },
        SettingsLoadView::Missing => CommandDecisionView::SettingsMissing,
        SettingsLoadView::Failed(why) => CommandDecisionView::Failed(load_failure(why)),
    }
}

/// The settings that a fresh installation starts with: dark theme and
/// close-on-exit on, developer mode and icon updates off.
pub fn default_settings() -> (settings: Settings)
    ensures
        settings == (Settings { dark: true, dev: false, close: true, iconupdates: false }),
{
    Settings { dark: true, dev: false, close: true, iconupdates: false }
}

/// The exit code that a script's `exit(arg)` asks for.
pub fn exit_code(arg: Option<u64>) -> (code: i32)
    ensures
        code == exit_code_of(arg),
{
    match arg {
        None => 0,
        Some(code) => if code <= 0x7fff_ffff {
            code as i32
        } else {
            1
        },
    }
}

/// Decides a script's `exit(arg)` on the settings read for this call.
pub fn exit(arg: Option<u64>, settings: &SettingsLoad) -> (decision: ExitDecision)
    ensures
        decision@ == exit_decision(arg, settings@),
{
    match settings {
        SettingsLoad::Loaded(s) => {
            if s.close {
                ExitDecision::Terminate(exit_code(arg))
            } else {
                ExitDecision::KeepRunning
            }
        },
        SettingsLoad::Missing => ExitDecision::SettingsMissing,
        SettingsLoad::Failed(why) => ExitDecision::Failed(
            join("Failed to load settings: ", why.as_str()),
        ),
    }
}

/// The modal dialog behind `messageBox`, with one button.
pub fn message_box(title: String, desc: String) -> (dialog: Dialog)
    ensures
        dialog@ == (DialogView { title: title@, description: desc@, buttons: DialogButtons::OkOnly }),
{
    Dialog { title, description: desc, buttons: DialogButtons::OkOnly }
}

/// Decides a script's `runCommand(cmd)` on the settings read for this call.
/// Only `CommandDecision::Run` carries a command: on every other branch there
/// is nothing that could be run.
pub fn command(platform: Platform, cmd: &str, settings: &SettingsLoad) -> (decision:
    CommandDecision)
    ensures
        decision@ == command_decision(platform, cmd@, settings@),
{
    match settings {
        SettingsLoad::Loaded(s) => {
            if s.dev {
                CommandDecision::Run(run_command(platform, cmd))
            } else {
                CommandDecision::Deny {
                    dialog: message_box(
                        String::from_str("Developer mod off"),
                        String::from_str(
                            "Script attempted to run \"runCommand\" on your computer without Developer mod on. For your safety, the script wasn't allowed to run their command.",
                        ),
                    ),
                    exit_code: DENIED_EXIT_CODE,
                }
            }
        },
        SettingsLoad::Missing => CommandDecision::SettingsMissing,
        SettingsLoad::Failed(why) => CommandDecision::Failed(
            join("Failed to load settings: ", why.as_str()),
        ),
    }
}

/// A script's `runCommand` has its command run if and only if the
/// settings were read and developer mode is on, and the command is then the
/// one that hands the script's text to the host's shell. Only that decision
/// holds a command: on every other one there is nothing to run.
pub proof fn command_runs_only_in_developer_mode(
    platform: Platform,
    cmd: Seq<char>,
    settings: SettingsLoadView,
)
    ensures
        command_decision(platform, cmd, settings) is Run <==> settings is Loaded
            && settings->Loaded_0.dev,
        command_decision(platform, cmd, settings) is Run ==> command_decision(
            platform,
            cmd,
            settings,
        )->Run_0 == run_command_plan(platform, cmd),
{
}

/// With developer mode off, every `runCommand` is refused in the same way,
/// whatever the command, the platform and the other settings say: the user
/// is shown the dialog that names the refused action, and the launcher is
/// then ended with code 99. Close-on-exit has no say in it.
pub proof fn denial_ends_with_code_99(platform: Platform, cmd: Seq<char>, settings: Settings)
    requires
        !settings.dev,
    ensures
        command_decision(platform, cmd, SettingsLoadView::Loaded(settings))
            == (CommandDecisionView::Deny { dialog: denial_dialog(), exit_code: 99i32 }),
{
}

/// The exit hook: with close-on-exit on, `exit(code)` ends the launcher with
/// that code, for every code that a process can end with, and `exit()` ends
/// it with 0; with close-on-exit off, or with no settings to be had, the
/// launcher is never ended.
pub proof fn exit_follows_close_on_exit(code: u64, settings: SettingsLoadView)
    ensures
        settings is Loaded && settings->Loaded_0.close && code <= i32::MAX ==> exit_decision(
            Some(code),
            settings,
        ) == ExitDecisionView::Terminate(code as i32),
        settings is Loaded && settings->Loaded_0.close ==> exit_decision(None, settings)
            == ExitDecisionView::Terminate(0i32),
        exit_decision(Some(code), settings) is Terminate <==> settings is Loaded
            && settings->Loaded_0.close,
        settings is Loaded && !settings->Loaded_0.close ==> exit_decision(Some(code), settings)
            == ExitDecisionView::KeepRunning,
{
}

} // verus!
