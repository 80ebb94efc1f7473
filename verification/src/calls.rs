//! A script's call of a capability, and what the host is to do for it. This
//! is where the registry's names are wired to the inspector, the waits, the
//! permission check and the simple operations: for every call the library
//! says which one thing the host does, and what the script gets back.

use vstd::prelude::*;
use vstd::string::*;
use crate::gate::{message_box, Dialog, DialogButtons, DialogView};
use crate::inspector::{
    is_app_open, is_app_open_plan, is_window_open, is_window_open_plan, Probe, ProbeView,
    QueryError,
};
use crate::invocation::{
    close_app, close_app_plan, force_close_app, force_close_app_plan, open_app, open_app_plan,
    open_url, open_url_plan, Invocation, InvocationView,
};
use crate::platform::Platform;
use crate::registry::{capability_kind, BindingKind, Capability};
use crate::wait::{
    start, wait_app_opened, wait_until_app_closed, wait_until_window_closed, wait_window_opened,
    Wait, WaitKind, WaitModel,
};

verus! {

/// One call of a capability by a script, with its arguments.
#[derive(Clone, Debug, PartialEq, Eq)]
pub enum Call {
    OpenApp(String),
    CloseApp(String),
    ForceCloseApp(String),
    IsAppOpen(String),
    IsWindowOpen(String),
    OpenUrl(String),
    Exit(Option<u64>),
    RunCommand(String),
    WaitUntilWindowClose(String),
    WaitUntilAppClose(String),
    WaitUntilWindowOpen(String, u64),
    WaitUntilAppOpen(String, u64),
    Sleep(u64),
    MessageBox(String, String),
}

pub ghost enum CallView {
    OpenApp(Seq<char>),
    CloseApp(Seq<char>),
    ForceCloseApp(Seq<char>),
    IsAppOpen(Seq<char>),
    IsWindowOpen(Seq<char>),
    OpenUrl(Seq<char>),
    Exit(Option<u64>),
    RunCommand(Seq<char>),
    WaitUntilWindowClose(Seq<char>),
    WaitUntilAppClose(Seq<char>),
    WaitUntilWindowOpen(Seq<char>, u64),
    WaitUntilAppOpen(Seq<char>, u64),
    Sleep(u64),
    MessageBox(Seq<char>, Seq<char>),
}

impl View for Call {
    type V = CallView;

    open spec fn view(&self) -> CallView {
        match self {
            Call::OpenApp(arg) => CallView::OpenApp(arg@),
            Call::CloseApp(name) => CallView::CloseApp(name@),
            Call::ForceCloseApp(name) => CallView::ForceCloseApp(name@),
            Call::IsAppOpen(name) => CallView::IsAppOpen(name@),
            Call::IsWindowOpen(title) => CallView::IsWindowOpen(title@),
            Call::OpenUrl(url) => CallView::OpenUrl(url@),
            Call::Exit(code) => CallView::Exit(*code),
            Call::RunCommand(cmd) => CallView::RunCommand(cmd@),
            Call::WaitUntilWindowClose(title) => CallView::WaitUntilWindowClose(title@),
            Call::WaitUntilAppClose(name) => CallView::WaitUntilAppClose(name@),
            Call::WaitUntilWindowOpen(title, timeout) => CallView::WaitUntilWindowOpen(
                title@,
                *timeout,
            ),
            Call::WaitUntilAppOpen(name, timeout) => CallView::WaitUntilAppOpen(name@, *timeout),
            Call::Sleep(ms) => CallView::Sleep(*ms),
            Call::MessageBox(title, body) => CallView::MessageBox(title@, body@),
        }
    }
}

/// What a script gets back from a command that was started.
#[derive(Clone, Copy, Debug, PartialEq, Eq, Structural)]
pub enum Reply {
    Nothing,
    True,
}

/// The one thing the host does for a call. Where the host fails at it, the
/// script gets the failure as an error value and the launcher goes on.
#[derive(Clone, Debug, PartialEq, Eq)]
pub enum Step {
    /// Start the command and do not wait for it. The script gets `reply`.
    Spawn { invocation: Invocation, reply: Reply },
    /// Run the command to its end and drop what it prints. The script gets
    /// nothing back.
    RunToEnd(Invocation),
    /// Put the question to the host. The script gets the answer.
    Ask(Probe),
    /// The question cannot be put. The script gets this error.
    Refuse(QueryError),
    /// Read the settings and follow what `exit` decides on them.
    Exit(Option<u64>),
    /// Read the settings and follow what `command` decides on them.
    Command(String),
    /// Carry the wait through; meanwhile only the script is suspended. From
    /// a wait for opening the script gets `true` or `false`; from a wait
    /// that ends as failed it gets the failure of the probe as an error.
    Wait(Wait),
    /// Suspend the script for so many milliseconds.
    Sleep(u64),
    /// Show the dialog and go on when the user has dismissed it.
    Show(Dialog),
}

pub ghost enum StepView {
    Spawn { invocation: InvocationView, reply: Reply },
    RunToEnd(InvocationView),
    Ask(ProbeView),
    Refuse(QueryError),
    Exit(Option<u64>),
    Command(Seq<char>),
    Wait(WaitModel),
    Sleep(u64),
    Show(DialogView),
}

impl View for Step {
    type V = StepView;

    open spec fn view(&self) -> StepView {
        match self {
            Step::Spawn { invocation, reply } => StepView::Spawn {
                invocation: invocation@,
                reply: *reply,
            },
            Step::RunToEnd(invocation) => StepView::RunToEnd(invocation@),
            Step::Ask(probe) => StepView::Ask(probe@),
            Step::Refuse(error) => StepView::Refuse(*error),
            Step::Exit(code) => StepView::Exit(*code),
            Step::Command(cmd) => StepView::Command(cmd@),
            Step::Wait(wait) => StepView::Wait(wait@),
            Step::Sleep(ms) => StepView::Sleep(*ms),
            Step::Show(dialog) => StepView::Show(dialog@),
        }
    }
}

/// The capability that a call is a call of.
pub open spec fn capability_of(call: CallView) -> Capability {
    match call {
        CallView::OpenApp(_) => Capability::OpenApp,
        CallView::CloseApp(_) => Capability::CloseApp,
        CallView::ForceCloseApp(_) => Capability::ForceCloseApp,
        CallView::IsAppOpen(_) => Capability::IsAppOpen,
        CallView::IsWindowOpen(_) => Capability::IsWindowOpen,
        CallView::OpenUrl(_) => Capability::OpenUrl,
        CallView::Exit(_) => Capability::Exit,
        CallView::RunCommand(_) => Capability::RunCommand,
        CallView::WaitUntilWindowClose(_) => Capability::WaitUntilWindowClose,
        CallView::WaitUntilAppClose(_) => Capability::WaitUntilAppClose,
        CallView::WaitUntilWindowOpen(_, _) => Capability::WaitUntilWindowOpen,
        CallView::WaitUntilAppOpen(_, _) => Capability::WaitUntilAppOpen,
        CallView::Sleep(_) => Capability::Sleep,
        CallView::MessageBox(_, _) => Capability::MessageBox,
    }
}

/// What the host does for `call` on `platform`.
pub open spec fn step_of(platform: Platform, call: CallView) -> StepView {
    match call {
        CallView::OpenApp(arg) => StepView::Spawn {
            invocation: open_app_plan(platform, arg),
            reply: Reply::Nothing,
        },
        CallView::CloseApp(name) => StepView::RunToEnd(close_app_plan(platform, name)),
        CallView::ForceCloseApp(name) => StepView::RunToEnd(force_close_app_plan(platform, name)),
        CallView::IsAppOpen(name) => StepView::Ask(is_app_open_plan(platform, name)),
        CallView::IsWindowOpen(title) => if platform == Platform::Windows && title.contains('\0') {
            StepView::Refuse(QueryError::NulInTitle)
        } else {
            StepView::Ask(is_window_open_plan(platform, title))
        },
        CallView::OpenUrl(url) => StepView::Spawn {
            invocation: open_url_plan(platform, url),
            reply: Reply::True,
        },
        CallView::Exit(code) => StepView::Exit(code),
        CallView::RunCommand(cmd) => StepView::Command(cmd),
        CallView::WaitUntilWindowClose(title) => StepView::Wait(
            start(WaitKind::Window, title, None),
        ),
        CallView::WaitUntilAppClose(name) => StepView::Wait(start(WaitKind::Process, name, None)),
        CallView::WaitUntilWindowOpen(title, timeout) => StepView::Wait(
            start(WaitKind::Window, title, Some(timeout)),
        ),
        CallView::WaitUntilAppOpen(name, timeout) => StepView::Wait(
            start(WaitKind::Process, name, Some(timeout)),
        ),
        CallView::Sleep(ms) => StepView::Sleep(ms),
        CallView::MessageBox(title, body) => StepView::Show(
            DialogView { title, description: body, buttons: DialogButtons::OkOnly },
        ),
    }
}

impl Call {
    /// The capability that this is a call of.
    pub fn capability(&self) -> (capability: Capability)
        ensures
            capability == capability_of(self@),
    {
        match self {
            Call::OpenApp(_) => Capability::OpenApp,
            Call::CloseApp(_) => Capability::CloseApp,
            Call::ForceCloseApp(_) => Capability::ForceCloseApp,
            Call::IsAppOpen(_) => Capability::IsAppOpen,
            Call::IsWindowOpen(_) => Capability::IsWindowOpen,
            Call::OpenUrl(_) => Capability::OpenUrl,
            Call::Exit(_) => Capability::Exit,
            Call::RunCommand(_) => Capability::RunCommand,
            Call::WaitUntilWindowClose(_) => Capability::WaitUntilWindowClose,
            Call::WaitUntilAppClose(_) => Capability::WaitUntilAppClose,
            Call::WaitUntilWindowOpen(_, _) => Capability::WaitUntilWindowOpen,
            Call::WaitUntilAppOpen(_, _) => Capability::WaitUntilAppOpen,
            Call::Sleep(_) => Capability::Sleep,
            Call::MessageBox(_, _) => Capability::MessageBox,
        }
    }
}

/// Plans what the host does for one call of a script.
pub fn plan(platform: Platform, call: Call) -> (step: Step)
    ensures
        step@ == step_of(platform, call@),
{
    match call {
        Call::OpenApp(arg) => Step::Spawn {
            invocation: open_app(platform, arg.as_str()),
            reply: Reply::Nothing,
        },
        Call::CloseApp(name) => Step::RunToEnd(close_app(platform, name.as_str())),
        Call::ForceCloseApp(name) => Step::RunToEnd(force_close_app(platform, name.as_str())),
        Call::IsAppOpen(name) => Step::Ask(is_app_open(platform, name.as_str())),
        Call::IsWindowOpen(title) => match is_window_open(platform, title.as_str()) {
            Ok(probe) => Step::Ask(probe),
            Err(error) => Step::Refuse(error),
        },
        Call::OpenUrl(url) => Step::Spawn {
            invocation: open_url(platform, url.as_str()),
            reply: Reply::True,
        },
        Call::Exit(code) => Step::Exit(code),
        Call::RunCommand(cmd) => Step::Command(cmd),
        Call::WaitUntilWindowClose(title) => Step::Wait(wait_until_window_closed(title.as_str())),
        Call::WaitUntilAppClose(name) => Step::Wait(wait_until_app_closed(name.as_str())),
        Call::WaitUntilWindowOpen(title, timeout) => Step::Wait(
            wait_window_opened(title.as_str(), timeout),
        ),
        Call::WaitUntilAppOpen(name, timeout) => Step::Wait(
            wait_app_opened(name.as_str(), timeout),
        ),
        Call::Sleep(ms) => Step::Sleep(ms),
        Call::MessageBox(title, body) => Step::Show(message_box(title, body)),
    }
}

/// The calls during which the host goes on while the script is suspended are
/// the waits and `sleep`, and they are the calls of the capabilities that
/// the registry binds as asynchronous functions. Every other call is one
/// action of the host.
pub proof fn suspending_calls_are_bound_async(platform: Platform, call: CallView)
    ensures
        (step_of(platform, call) is Wait || step_of(platform, call) is Sleep) <==> capability_kind(
            capability_of(call),
        ) == BindingKind::AsyncFunction,
        capability_kind(capability_of(call)) != BindingKind::Constant,
{
}

/// The plan for a call of `runCommand` never holds a command: it is the
/// order to read the settings and decide, whatever the platform and the
/// text. No other call leads to that decision, and only `exit` leads to the
/// decision that rests on close-on-exit.
pub proof fn only_run_command_is_gated(platform: Platform, call: CallView)
    ensures
        step_of(platform, call) is Command <==> capability_of(call) == Capability::RunCommand,
        step_of(platform, call) is Exit <==> capability_of(call) == Capability::Exit,
{
}

} // verus!
