//! The two questions the launcher asks about the host: is a process with a
//! given name running, and is a window with a given title open. Each question
//! is planned here as a probe, and the host's answer is read here; the probe
//! itself is carried out by the program around the library.
//!
//! The systems match differently, and scripts rely on it: Windows looks for
//! the process name anywhere in the task list and for a window by its exact
//! title; macOS and Linux match both by part of the text.

use vstd::prelude::*;
use vstd::string::*;
use crate::invocation::{invocation, Invocation, InvocationView};
use crate::platform::Platform;
use crate::text::{
    chars_of, contains, contains_text, escape_ampersands, escaped_text, is_blank, is_blank_text,
    join,
};

verus! {

/// How the outcome of a probe command is read.
#[derive(Clone, Debug, PartialEq, Eq)]
pub enum Reading {
    /// The answer is yes if the command ended with success.
    ExitSuccess,
    /// The answer is yes if the text stands somewhere in what the command
    /// printed.
    OutputContains(String),
    /// The answer is yes if the command printed more than white space.
    OutputNotBlank,
}

pub ghost enum ReadingView {
    ExitSuccess,
    OutputContains(Seq<char>),
    OutputNotBlank,
}

impl View for Reading {
    type V = ReadingView;

    open spec fn view(&self) -> ReadingView {
        match self {
            Reading::ExitSuccess => ReadingView::ExitSuccess,
            Reading::OutputContains(needle) => ReadingView::OutputContains(needle@),
            Reading::OutputNotBlank => ReadingView::OutputNotBlank,
        }
    }
}

/// One live question to the host.
#[derive(Clone, Debug, PartialEq, Eq)]
pub enum Probe {
    /// Run the command to its end and read its outcome.
    Run { invocation: Invocation, reading: Reading },
    /// Ask the window system for a window whose title is exactly `title`.
    /// The title holds no NUL character.
    FindWindow { title: String },
}

pub ghost enum ProbeView {
    Run { invocation: InvocationView, reading: ReadingView },
    FindWindow { title: Seq<char> },
}

impl View for Probe {
    type V = ProbeView;

    open spec fn view(&self) -> ProbeView {
        match self {
            Probe::Run { invocation, reading } => ProbeView::Run {
                invocation: invocation@,
                reading: reading@,
            },
            Probe::FindWindow { title } => ProbeView::FindWindow { title: title@ },
        }
    }
}

/// What a probe command left behind: whether it ended with success, and what
/// it printed, with bytes that are no UTF-8 replaced.
#[derive(Clone, Debug, PartialEq, Eq)]
pub struct CommandOutcome {
    pub success: bool,
    pub output: String,
}

/// Why a question could not be put to the host.
#[derive(Clone, Copy, Debug, PartialEq, Eq, Structural)]
pub enum QueryError {
    /// The window title holds a NUL character, which no title handed to the
    /// Windows window system can hold.
    NulInTitle,
}

impl QueryError {
    /// Why the question could not be put, in words for the script.
    pub fn message(&self) -> (text: String)
        ensures
            text@ == "nul byte found in window title"@,
    {
        match self {
            QueryError::NulInTitle => String::from_str("nul byte found in window title"),
        }
    }
}

/// The script that makes macOS list the titles of all windows.
pub open spec fn window_list_script() -> Seq<char> {
    "tell application \"System Events\" to get the name of every window of every process"@
}

/// The filter that makes the Windows task list show one image name.
pub open spec fn image_filter(name: Seq<char>) -> Seq<char> {
    "IMAGENAME eq "@ + escaped_text(name)
}

/// The probe behind `isAppOpen`. On Windows the task list is searched for
/// the name as the script wrote it.
pub open spec fn is_app_open_plan(platform: Platform, name: Seq<char>) -> ProbeView {
    match platform {
        Platform::Windows => ProbeView::Run {
            invocation: InvocationView {
                program: "tasklist"@,
                args: seq!["/FI"@, image_filter(name)],
            },
            reading: ReadingView::OutputContains(name),
        },
        _ => ProbeView::Run {
            invocation: InvocationView { program: "pgrep"@, args: seq!["-f"@, name] },
            reading: ReadingView::ExitSuccess,
        },
    }
}

/// The probe behind the waits for a process. It is the question that
/// `isAppOpen` asks: on Windows the task list is searched for the name as the
/// script wrote it.
pub open spec fn is_process_running_plan(platform: Platform, name: Seq<char>) -> ProbeView {
    match platform {
        Platform::Windows => ProbeView::Run {
            invocation: InvocationView {
                program: "tasklist"@,
                args: seq!["/FI"@, image_filter(name)],
            },
            reading: ReadingView::OutputContains(name),
        },
        _ => ProbeView::Run {
            invocation: InvocationView { program: "pgrep"@, args: seq!["-f"@, name] },
            reading: ReadingView::ExitSuccess,
        },
    }
}

/// The probe behind `isWindowOpen` and behind both waits for a window.
pub open spec fn is_window_open_plan(platform: Platform, title: Seq<char>) -> ProbeView {
    match platform {
        Platform::Windows => ProbeView::FindWindow { title },
        Platform::MacOS => ProbeView::Run {
            invocation: InvocationView {
                program: "osascript"@,
                args: seq!["-e"@, window_list_script()],
            },
            reading: ReadingView::OutputContains(title),
        },
        Platform::Linux => ProbeView::Run {
            invocation: InvocationView {
                program: "xdotool"@,
                args: seq!["search"@, "--name"@, title],
            },
            reading: ReadingView::OutputNotBlank,
        },
    }
}

/// The answer that a reading gives on an outcome.
pub open spec fn reading_holds(reading: ReadingView, success: bool, output: Seq<char>) -> bool {
    match reading {
        ReadingView::ExitSuccess => success,
        ReadingView::OutputContains(needle) => contains_text(output, needle),
        ReadingView::OutputNotBlank => !is_blank_text(output),
    }
}

impl Reading {
    /// Whether what the probe command prints has to be kept for this
    /// reading. Where it has not, the command runs on the launcher's own
    /// terminal and only its exit status is taken.
    pub fn reads_output(&self) -> (yes: bool)
        ensures
            yes == !(self@ is ExitSuccess),
    {
        match self {
            Reading::ExitSuccess => false,
            _ => true,
        }
    }

    /// Reads the outcome of a probe command: `true` if the process or the
    /// window is there.
    pub fn holds(&self, outcome: &CommandOutcome) -> (yes: bool)
        ensures
            yes == reading_holds(self@, outcome.success, outcome.output@),
    {
        match self {
            Reading::ExitSuccess => outcome.success,
            Reading::OutputContains(needle) => contains(
                outcome.output.as_str(),
                needle.as_str(),
            ),
            Reading::OutputNotBlank => !is_blank(outcome.output.as_str()),
        }
    }
}

/// The task-list command for one image name.
fn task_list(name: &str) -> (inv: Invocation)
    ensures
        inv@ == (InvocationView { program: "tasklist"@, args: seq!["/FI"@, image_filter(name@)] }),
{
    let escaped = escape_ampersands(name);
    let inv = invocation(String::from_str("tasklist")).arg(String::from_str("/FI")).arg(
        join("IMAGENAME eq ", escaped.as_str()),
    );
    assert(inv@.args =~= seq!["/FI"@, image_filter(name@)]);
    inv
}

/// The process search of macOS and Linux, which matches `name` against the
/// command lines of the running processes.
fn process_search(name: &str) -> (inv: Invocation)
    ensures
        inv@ == (InvocationView { program: "pgrep"@, args: seq!["-f"@, name@] }),
{
    let inv = invocation(String::from_str("pgrep")).arg(String::from_str("-f")).arg(
        String::from_str(name),
    );
    assert(inv@.args =~= seq!["-f"@, name@]);
    inv
}

/// Plans the question "is a process called `name` running", as `isAppOpen`
/// asks it.
pub fn is_app_open(platform: Platform, name: &str) -> (probe: Probe)
    ensures
        probe@ == is_app_open_plan(platform, name@),
{
    match platform {
        Platform::Windows => Probe::Run {
            invocation: task_list(name),
            reading: Reading::OutputContains(String::from_str(name)),
        },
        _ => Probe::Run { invocation: process_search(name), reading: Reading::ExitSuccess },
    }
}

/// Plans the question "is a process called `name` running", as the waits
/// for a process ask it.
pub fn is_process_running(platform: Platform, name: &str) -> (probe: Probe)
    ensures
        probe@ == is_process_running_plan(platform, name@),
{
    match platform {
        Platform::Windows => Probe::Run {
            invocation: task_list(name),
            reading: Reading::OutputContains(String::from_str(name)),
        },
        _ => Probe::Run { invocation: process_search(name), reading: Reading::ExitSuccess },
    }
}

/// Whether `title` holds a NUL character.
fn has_nul(title: &str) -> (yes: bool)
    ensures
        yes == title@.contains('\0'),
{
    let cs = chars_of(title);
    let mut i: usize = 0;
    while i < cs.len()
        invariant
            cs@ == title@,
            i <= cs.len(),
            forall|k: int| 0 <= k < i ==> cs@[k] != '\0',
        decreases cs.len() - i,
    {
        if cs[i] == '\0' {
            return true;
        }
        i += 1;
    }
    false
}

/// Plans the question "is a window titled `title` open". It can be put on
/// every platform and with every title but one kind: on Windows a title with
/// a NUL character in it is refused.
pub fn is_window_open(platform: Platform, title: &str) -> (planned: Result<Probe, QueryError>)
    ensures
        planned is Err <==> platform == Platform::Windows && title@.contains('\0'),
        planned matches Ok(probe) ==> probe@ == is_window_open_plan(platform, title@),
        planned matches Err(e) ==> e == QueryError::NulInTitle,
{
    match platform {
        Platform::Windows => {
            if has_nul(title) {
                Err(QueryError::NulInTitle)
            } else {
                Ok(Probe::FindWindow { title: String::from_str(title) })
            }
        },
        Platform::MacOS => {
            let inv = invocation(String::from_str("osascript")).arg(String::from_str("-e")).arg(
                String::from_str(
                    "tell application \"System Events\" to get the name of every window of every process",
                ),
            );
            assert(inv@.args =~= seq!["-e"@, window_list_script()]);
            Ok(Probe::Run { invocation: inv, reading: Reading::OutputContains(String::from_str(title)) })
        },
        Platform::Linux => {
            let inv = invocation(String::from_str("xdotool")).arg(String::from_str("search")).arg(
                String::from_str("--name"),
            ).arg(String::from_str(title));
            assert(inv@.args =~= seq!["search"@, "--name"@, title@]);
            Ok(Probe::Run { invocation: inv, reading: Reading::OutputNotBlank })
        },
    }
}

/// There is one question about a process: `isAppOpen` and the waits for a
/// process ask the same of the host, on every platform and for every name.
pub proof fn process_probes_agree(platform: Platform, name: Seq<char>)
    ensures
        is_app_open_plan(platform, name) == is_process_running_plan(platform, name),
{
}

} // verus!
