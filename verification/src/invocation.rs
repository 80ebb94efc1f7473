//! Commands the launcher asks the host to run, as plain values: the program
//! and its arguments, one text each. Planning a command runs nothing.

use vstd::prelude::*;
use vstd::string::*;
use crate::platform::Platform;
use crate::text::{escape_ampersands, escaped_text, texts_of};

verus! {

/// A command to run: the program to start and the arguments it gets, in
/// order. No shell reads them: each text reaches the program as it stands.
#[derive(Clone, Debug, PartialEq, Eq)]
pub struct Invocation {
    pub program: String,
    pub args: Vec<String>,
}

/// What an `Invocation` holds, as sequences of characters.
pub ghost struct InvocationView {
    pub program: Seq<char>,
    pub args: Seq<Seq<char>>,
}

impl View for Invocation {
    type V = InvocationView;

    open spec fn view(&self) -> InvocationView {
        InvocationView { program: self.program@, args: texts_of(self.args@) }
    }
}

/// How `openApp` launches `arg`: through the shell's `start` on Windows,
/// through `open` on macOS, as a program of its own on Linux.
pub open spec fn open_app_plan(platform: Platform, arg: Seq<char>) -> InvocationView {
    match platform {
        Platform::Windows => InvocationView {
            program: "cmd"@,
            args: seq!["/C"@, "start"@, ""@, escaped_text(arg)],
        },
        Platform::MacOS => InvocationView { program: "open"@, args: seq![arg] },
        Platform::Linux => InvocationView { program: arg, args: seq![] },
    }
}

/// How `closeApp` asks the processes called `name` to end.
pub open spec fn close_app_plan(platform: Platform, name: Seq<char>) -> InvocationView {
    match platform {
        Platform::Windows => InvocationView {
            program: "taskkill"@,
            args: seq!["/IM"@, escaped_text(name)],
        },
        _ => InvocationView { program: "pkill"@, args: seq![name] },
    }
}

/// How `forceCloseApp` ends the processes called `name` without asking.
pub open spec fn force_close_app_plan(platform: Platform, name: Seq<char>) -> InvocationView {
    match platform {
        Platform::Windows => InvocationView {
            program: "taskkill"@,
            args: seq!["/IM"@, escaped_text(name), "/F"@],
        },
        _ => InvocationView { program: "pkill"@, args: seq!["-9"@, name] },
    }
}

/// How `openURL` hands `url` to the system's default handler.
pub open spec fn open_url_plan(platform: Platform, url: Seq<char>) -> InvocationView {
    match platform {
        Platform::Windows => InvocationView {
            program: "cmd"@,
            args: seq!["/C"@, "start"@, ""@, escaped_text(url)],
        },
        Platform::MacOS => InvocationView { program: "open"@, args: seq![url] },
        Platform::Linux => InvocationView { program: "xdg-open"@, args: seq![url] },
    }
}

/// How `runCommand` hands `cmd` to the host's shell.
pub open spec fn run_command_plan(platform: Platform, cmd: Seq<char>) -> InvocationView {
    match platform {
        Platform::Windows => InvocationView { program: "cmd"@, args: seq!["/C"@, cmd] },
        _ => InvocationView { program: "sh"@, args: seq!["-c"@, cmd] },
    }
}

/// An invocation of `program` with no arguments.
pub fn invocation(program: String) -> (inv: Invocation)
    ensures
        inv@ == (InvocationView { program: program@, args: seq![] }),
{
    let inv = Invocation { program, args: Vec::new() };
    assert(texts_of(inv.args@) =~= seq![]);
    inv
}

impl Invocation {
    /// The same invocation with `arg` as one more argument at the end.
    pub fn arg(self, arg: String) -> (inv: Invocation)
        ensures
            inv@ == (InvocationView { program: self@.program, args: self@.args.push(arg@) }),
    {
        let mut inv = self;
        inv.args.push(arg);
        assert(texts_of(inv.args@) =~= texts_of(self.args@).push(arg@));
        inv
    }
}

/// The command that launches `arg` for `openApp`. It is started and not
/// waited for.
pub fn open_app(platform: Platform, arg: &str) -> (inv: Invocation)
    ensures
        inv@ == open_app_plan(platform, arg@),
{
    match platform {
        Platform::Windows => {
            let inv = invocation(String::from_str("cmd")).arg(String::from_str("/C")).arg(
                String::from_str("start"),
            ).arg(String::from_str("")).arg(escape_ampersands(arg));
            assert(inv@.args =~= seq!["/C"@, "start"@, ""@, escaped_text(arg@)]);
            inv
        },
        Platform::MacOS => {
            let inv = invocation(String::from_str("open")).arg(String::from_str(arg));
            assert(inv@.args =~= seq![arg@]);
            inv
        },
        Platform::Linux => invocation(String::from_str(arg)),
    }
}

/// The command that asks the processes called `name` to end, for
/// `closeApp`. It is run to its end; what it prints is not read.
pub fn close_app(platform: Platform, name: &str) -> (inv: Invocation)
    ensures
        inv@ == close_app_plan(platform, name@),
{
    match platform {
        Platform::Windows => {
            let inv = invocation(String::from_str("taskkill")).arg(String::from_str("/IM")).arg(
                escape_ampersands(name),
            );
            assert(inv@.args =~= seq!["/IM"@, escaped_text(name@)]);
            inv
        },
        _ => {
            let inv = invocation(String::from_str("pkill")).arg(String::from_str(name));
            assert(inv@.args =~= seq![name@]);
            inv
        },
    }
}

/// The command that ends the processes called `name` at once, for
/// `forceCloseApp`. It is run to its end; what it prints is not read.
pub fn force_close_app(platform: Platform, name: &str) -> (inv: Invocation)
    ensures
        inv@ == force_close_app_plan(platform, name@),
{
    match platform {
        Platform::Windows => {
            let inv = invocation(String::from_str("taskkill")).arg(String::from_str("/IM")).arg(
                escape_ampersands(name),
            ).arg(String::from_str("/F"));
            assert(inv@.args =~= seq!["/IM"@, escaped_text(name@), "/F"@]);
            inv
        },
        _ => {
            let inv = invocation(String::from_str("pkill")).arg(String::from_str("-9")).arg(
                String::from_str(name),
            );
            assert(inv@.args =~= seq!["-9"@, name@]);
            inv
        },
    }
}

/// The command that opens `url` for `openURL`. It is started and not waited
/// for; the script gets `true` unless the start fails.
pub fn open_url(platform: Platform, url: &str) -> (inv: Invocation)
    ensures
        inv@ == open_url_plan(platform, url@),
{
    match platform {
        Platform::Windows => {
            let inv = invocation(String::from_str("cmd")).arg(String::from_str("/C")).arg(
                String::from_str("start"),
            ).arg(String::from_str("")).arg(escape_ampersands(url));
            assert(inv@.args =~= seq!["/C"@, "start"@, ""@, escaped_text(url@)]);
            inv
        },
        Platform::MacOS => {
            let inv = invocation(String::from_str("open")).arg(String::from_str(url));
            assert(inv@.args =~= seq![url@]);
            inv
        },
        Platform::Linux => {
            let inv = invocation(String::from_str("xdg-open")).arg(String::from_str(url));
            assert(inv@.args =~= seq![url@]);
            inv
        },
    }
}

/// The command that hands `cmd` to the host's shell. It is run to its end.
/// Whether a script may have it run is for the permission gate to say.
pub fn run_command(platform: Platform, cmd: &str) -> (inv: Invocation)
    ensures
        inv@ == run_command_plan(platform, cmd@),
{
    match platform {
        Platform::Windows => {
            let inv = invocation(String::from_str("cmd")).arg(String::from_str("/C")).arg(
                String::from_str(cmd),
            );
            assert(inv@.args =~= seq!["/C"@, cmd@]);
            inv
        },
        _ => {
            let inv = invocation(String::from_str("sh")).arg(String::from_str("-c")).arg(
                String::from_str(cmd),
            );
            assert(inv@.args =~= seq!["-c"@, cmd@]);
            inv
        },
    }
}

} // verus!
