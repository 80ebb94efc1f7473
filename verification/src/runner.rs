//! The script runner: which file a script's name stands for, what is
//! evaluated when that file cannot be read, and what follows the evaluation.
//!
//! A run is a small state machine. It owns the one binding set of the run,
//! asks for the script's file to be read, then for the source to be
//! evaluated, once, and ends with what is to be done about the result. The
//! program around the library reads, evaluates and reports back.
//!
//! A script that runs to its end has its result logged, and the exit hook is
//! then called with code 0. A script that fails has its error handed to the
//! caller, formatted; the exit hook is not called for it, so a failed script
//! never ends the launcher.

use vstd::prelude::*;
use vstd::string::*;
use crate::output::{log_line, log_line_of};
use crate::platform::Platform;
use crate::registry::{context_of, create_context, Context, ContextView};
use crate::text::{ends_with, has_suffix, join};

verus! {

/// The exit code that the runner hands to the exit hook after a script that
/// ran to its end.
pub const SUCCESS_EXIT_CODE: u64 = 0;

/// What follows the evaluation of a script.
#[derive(Clone, Debug, PartialEq, Eq)]
pub enum RunEnd {
    /// The script ran to its end: print `log_line`, then decide `exit` with
    /// `exit_code` on settings read at that moment. Whatever that decision
    /// is, short of ending the launcher, the run has succeeded.
    Completed { log_line: String, exit_code: u64 },
    /// The script failed: hand `message` to the caller and go on.
    Failed { message: String },
}

pub ghost enum RunEndView {
    Completed { log_line: Seq<char>, exit_code: u64 },
    Failed { message: Seq<char> },
}

impl View for RunEnd {
    type V = RunEndView;

    open spec fn view(&self) -> RunEndView {
        match self {
            RunEnd::Completed { log_line, exit_code } => RunEndView::Completed {
                log_line: log_line@,
                exit_code: *exit_code,
            },
            RunEnd::Failed { message } => RunEndView::Failed { message: message@ },
        }
    }
}

/// The file that holds the script called `name`: the name itself if it ends
/// in `.lua`, else the name with `.lua` after it.
pub open spec fn script_file_of(name: Seq<char>) -> Seq<char> {
    if has_suffix(name, ".lua"@) {
        name
    } else {
        name + ".lua"@
    }
}

/// The source that is evaluated: what was read, or the empty program where
/// nothing could be read.
pub open spec fn source_of(read: Option<Seq<char>>) -> Seq<char> {
    match read {
        Some(source) => source,
        None => Seq::empty(),
    }
}

/// What follows an evaluation that gave `value`, rendered as text, or failed
/// with `error`.
pub open spec fn run_end_of(name: Seq<char>, evaluated: Result<Seq<char>, Seq<char>>) -> RunEndView {
    match evaluated {
        Ok(value) => RunEndView::Completed {
            log_line: log_line_of(name, value),
            exit_code: SUCCESS_EXIT_CODE,
        },
        Err(error) => RunEndView::Failed { message: "Lua run error: "@ + error },
    }
}

/// The name of the file that holds the script called `script_name`.
pub fn script_file_name(script_name: &str) -> (file: String)
    ensures
        file@ == script_file_of(script_name@),
{
    if ends_with(script_name, ".lua") {
        String::from_str(script_name)
    } else {
        join(script_name, ".lua")
    }
}

/// The source to evaluate, given what reading the script's file gave:
/// a file that is missing or cannot be read stands for the empty program.
pub fn script_source(read: Option<String>) -> (source: String)
    ensures
        source@ == source_of(
            match read {
                Some(s) => Some(s@),
                None => None,
            },
        ),
{
    match read {
        Some(source) => source,
        None => String::new(),
    }
}

/// What follows the one evaluation of the script called `script_name`:
/// `evaluated` holds its value rendered as text, or the error it failed with.
pub fn run_end(script_name: &str, evaluated: Result<String, String>) -> (end: RunEnd)
    ensures
        end@ == run_end_of(
            script_name@,
            match evaluated {
                Ok(v) => Ok(v@),
                Err(e) => Err(e@),
            },
        ),
{
    match evaluated {
        Ok(value) => RunEnd::Completed {
            log_line: log_line(script_name, value.as_str()),
            exit_code: SUCCESS_EXIT_CODE,
        },
        Err(error) => RunEnd::Failed { message: join("Lua run error: ", error.as_str()) },
    }
}

/// What a run asks for next.
#[derive(Clone, Debug, PartialEq, Eq)]
pub enum RunnerAction {
    /// Read the file called `file` in the scripts directory, and report what
    /// was read, or that nothing could be read.
    Load { file: String },
    /// Evaluate `source` as the script's top-level program, with the run's
    /// context as its globals, and report its value or its error.
    Evaluate { source: String },
    /// The run is over.
    Finish(RunEnd),
}

pub ghost enum RunnerActionView {
    Load { file: Seq<char> },
    Evaluate { source: Seq<char> },
    Finish(RunEndView),
}

impl View for RunnerAction {
    type V = RunnerActionView;

    open spec fn view(&self) -> RunnerActionView {
        match self {
            RunnerAction::Load { file } => RunnerActionView::Load { file: file@ },
            RunnerAction::Evaluate { source } => RunnerActionView::Evaluate { source: source@ },
            RunnerAction::Finish(end) => RunnerActionView::Finish(end@),
        }
    }
}

/// What the program reports back to a run.
#[derive(Debug, PartialEq, Eq)]
pub enum RunnerEvent {
    /// The file was read and held this text, or it could not be read.
    Loaded(Option<String>),
    /// The evaluation gave this value, rendered as text, or failed with this
    /// error.
    Evaluated(Result<String, String>),
}

pub ghost enum RunnerEventView {
    Loaded(Option<Seq<char>>),
    Evaluated(Result<Seq<char>, Seq<char>>),
}

impl View for RunnerEvent {
    type V = RunnerEventView;

    open spec fn view(&self) -> RunnerEventView {
        match self {
            RunnerEvent::Loaded(read) => RunnerEventView::Loaded(
                match read {
                    Some(s) => Some(s@),
                    None => None,
                },
            ),
            RunnerEvent::Evaluated(evaluated) => RunnerEventView::Evaluated(
                match evaluated {
                    Ok(v) => Ok(v@),
                    Err(e) => Err(e@),
                },
            ),
        }
    }
}

/// One run of one script.
#[derive(Debug, PartialEq, Eq)]
pub struct ScriptRun {
    context: Context,
    name: String,
    pending: RunnerAction,
}

/// A run, as contracts see it.
pub ghost struct ScriptRunModel {
    /// The binding set of this run.
    pub context: ContextView,
    /// The script's name, as the caller gave it.
    pub name: Seq<char>,
    /// What the run has asked for and not yet heard back about.
    pub pending: RunnerActionView,
}

impl View for ScriptRun {
    type V = ScriptRunModel;

    closed spec fn view(&self) -> ScriptRunModel {
        ScriptRunModel { context: self.context@, name: self.name@, pending: self.pending@ }
    }
}

/// A run that has just begun: it has its context and asks for the script's
/// file.
pub open spec fn run_start(platform: Platform, name: Seq<char>) -> ScriptRunModel {
    ScriptRunModel {
        context: context_of(platform),
        name,
        pending: RunnerActionView::Load { file: script_file_of(name) },
    }
}

/// The runner's one rule: from a state and a report to the next state. A
/// report that does not answer what the run asked for changes nothing.
pub open spec fn runner_step(s: ScriptRunModel, event: RunnerEventView) -> ScriptRunModel {
    match (s.pending, event) {
        (RunnerActionView::Load { .. }, RunnerEventView::Loaded(read)) => ScriptRunModel {
            pending: RunnerActionView::Evaluate { source: source_of(read) },
            ..s
        },
        (RunnerActionView::Evaluate { .. }, RunnerEventView::Evaluated(evaluated)) => ScriptRunModel {
            pending: RunnerActionView::Finish(run_end_of(s.name, evaluated)),
            ..s
        },
        _ => s,
    }
}

/// Begins the run of the script called `script_name` on `platform`, with a
/// binding set of its own.
pub fn lua_run_game(platform: Platform, script_name: &str) -> (run: ScriptRun)
    ensures
        run@ == run_start(platform, script_name@),
{
    ScriptRun {
        context: create_context(platform),
        name: String::from_str(script_name),
        pending: RunnerAction::Load { file: script_file_name(script_name) },
    }
}

impl ScriptRun {
    /// The binding set of this run.
    pub fn context(&self) -> (context: &Context)
        ensures
            context@ == self@.context,
    {
        &self.context
    }

    /// The script's name.
    pub fn name(&self) -> (name: &String)
        ensures
            name@ == self@.name,
    {
        &self.name
    }

    /// What the run asks for now.
    pub fn action(&self) -> (action: &RunnerAction)
        ensures
            action@ == self@.pending,
    {
        &self.pending
    }

    /// Takes a report and moves on.
    pub fn step(&mut self, event: RunnerEvent)
        ensures
            final(self)@ == runner_step(old(self)@, event@),
    {
        match event {
            RunnerEvent::Loaded(read) => {
                let asked = match &self.pending {
                    RunnerAction::Load { .. } => true,
                    _ => false,
                };
                if asked {
                    self.pending = RunnerAction::Evaluate { source: script_source(read) };
                }
            },
            RunnerEvent::Evaluated(evaluated) => {
                let asked = match &self.pending {
                    RunnerAction::Evaluate { .. } => true,
                    _ => false,
                };
                if asked {
                    let end = run_end(self.name.as_str(), evaluated);
                    self.pending = RunnerAction::Finish(end);
                }
            },
        }
    }
}

/// A run played against a list of reports: the state it ends in.
pub open spec fn run_through(s: ScriptRunModel, events: Seq<RunnerEventView>) -> ScriptRunModel
    decreases events.len(),
{
    if events.len() == 0 {
        s
    } else {
        run_through(runner_step(s, events[0]), events.drop_first())
    }
}

/// The number of evaluations that a run from state `s` makes when it is
/// played against `events`: the reports of an evaluation that the run had
/// asked for.
pub open spec fn evaluations(s: ScriptRunModel, events: Seq<RunnerEventView>) -> nat
    decreases events.len(),
{
    if events.len() == 0 {
        0
    } else {
        let made: nat = if s.pending is Evaluate && events[0] is Evaluated {
            1
        } else {
            0
        };
        made + evaluations(runner_step(s, events[0]), events.drop_first())
    }
}

proof fn at_most_one_evaluation_is_left(s: ScriptRunModel, events: Seq<RunnerEventView>)
    ensures
        evaluations(s, events) <= 1,
        s.pending is Finish ==> evaluations(s, events) == 0,
        run_through(s, events).context == s.context,
        run_through(s, events).name == s.name,
        run_through(s, events).pending is Finish <==> s.pending is Finish || evaluations(s, events)
            == 1,
    decreases events.len(),
{
    if events.len() > 0 {
        at_most_one_evaluation_is_left(runner_step(s, events[0]), events.drop_first());
    }
}

/// Whatever is reported to a run, and in whatever order, the script is
/// evaluated at most once; a run is over exactly when its one evaluation has
/// been made; and the run keeps the binding set it began with.
pub proof fn script_is_evaluated_once(
    platform: Platform,
    name: Seq<char>,
    events: Seq<RunnerEventView>,
)
    ensures
        evaluations(run_start(platform, name), events) <= 1,
        run_through(run_start(platform, name), events).pending is Finish <==> evaluations(
            run_start(platform, name),
            events,
        ) == 1,
        run_through(run_start(platform, name), events).context == context_of(platform),
{
    at_most_one_evaluation_is_left(run_start(platform, name), events);
}

/// A script whose file cannot be read is run all the same, as the empty
/// program: the run asks for the evaluation of the empty text, and what
/// follows is what follows any evaluation.
pub proof fn missing_script_is_the_empty_program(platform: Platform, name: Seq<char>)
    ensures
        runner_step(run_start(platform, name), RunnerEventView::Loaded(None)).pending
            == (RunnerActionView::Evaluate { source: Seq::empty() }),
{
}

} // verus!
