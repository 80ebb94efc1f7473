//! Waiting for a process or a window: the polling loops of the launcher as a
//! state machine. The machine says what to do next (probe, sleep, stop); the
//! program around the library does it and reports back. The machine itself
//! never blocks, so a wait holds up the script and nothing else.
//!
//! A wait for something to close polls once a second and has no end of its
//! own. A wait for something to open polls every 100 ms and gives up once
//! the time slept reaches the timeout; giving up is an ordinary result.
//! Either wait ends at once, as failed, when a probe fails: no probe is
//! tried again, and the script gets the failure as an error.

use vstd::prelude::*;
use vstd::string::*;
use crate::inspector::{
    is_process_running, is_process_running_plan, is_window_open, is_window_open_plan, Probe,
    QueryError,
};
use crate::platform::Platform;

verus! {

/// The cadence of a wait for something to close, in milliseconds.
pub const CLOSE_POLL_MS: u64 = 1000;

/// The cadence of a wait for something to open, in milliseconds.
pub const OPEN_POLL_MS: u64 = 100;

/// What a wait watches.
#[derive(Clone, Copy, Debug, PartialEq, Eq, Structural)]
pub enum WaitKind {
    Process,
    Window,
}

/// What one probe found.
#[derive(Clone, Copy, Debug, PartialEq, Eq, Structural)]
pub enum ProbeReport {
    /// The process is running, or the window is open.
    Present,
    /// It is not.
    Absent,
    /// The question could not be put, or the host failed to answer it.
    Failed,
}

/// How a wait ended.
#[derive(Clone, Copy, Debug, PartialEq, Eq, Structural)]
pub enum WaitOutcome {
    /// The target of a wait-until-closed is gone.
    Closed,
    /// The target of a wait-until-opened is there: the script gets `true`.
    Opened,
    /// The target of a wait-until-opened did not show in time: the script
    /// gets `false`.
    TimedOut,
    /// A probe failed: the script gets the error.
    Failed,
}

/// What the machine asks for next.
#[derive(Clone, Copy, Debug, PartialEq, Eq, Structural)]
pub enum WaitAction {
    /// Put the wait's question to the host, then report what was found.
    Probe,
    /// Suspend the script for so many milliseconds, then report.
    Sleep(u64),
    /// The wait is over.
    Finish(WaitOutcome),
}

/// What the program reports back.
#[derive(Clone, Copy, Debug, PartialEq, Eq, Structural)]
pub enum WaitEvent {
    Probed(ProbeReport),
    Slept,
}

/// What a script asked to wait for. Without a timeout the wait is for the
/// target to close; with one it is for the target to open.
#[derive(Clone, Debug, PartialEq, Eq)]
pub struct WaitRequest {
    pub kind: WaitKind,
    pub target: String,
    pub timeout_ms: Option<u64>,
}

/// A wait in progress.
#[derive(Clone, Debug, PartialEq, Eq)]
pub struct Wait {
    request: WaitRequest,
    waited_ms: u64,
    pending: WaitAction,
}

/// A wait in progress, as contracts see it.
pub ghost struct WaitModel {
    pub kind: WaitKind,
    pub target: Seq<char>,
    pub timeout_ms: Option<u64>,
    /// The time slept so far, in milliseconds, held at `u64::MAX` once it
    /// has got there.
    pub waited_ms: int,
    /// What the machine has asked for and not yet heard back about.
    pub pending: WaitAction,
}

/// The cadence of a wait: fixed by whether it has a timeout.
pub open spec fn poll_interval(timeout_ms: Option<u64>) -> u64 {
    if timeout_ms is Some {
        OPEN_POLL_MS
    } else {
        CLOSE_POLL_MS
    }
}

/// What follows a probe.
pub open spec fn after_probe(timeout_ms: Option<u64>, report: ProbeReport) -> WaitAction {
    match timeout_ms {
        None => match report {
            ProbeReport::Present => WaitAction::Sleep(CLOSE_POLL_MS),
            ProbeReport::Absent => WaitAction::Finish(WaitOutcome::Closed),
            ProbeReport::Failed => WaitAction::Finish(WaitOutcome::Failed),
        },
        Some(_) => match report {
            ProbeReport::Present => WaitAction::Finish(WaitOutcome::Opened),
            ProbeReport::Absent => WaitAction::Sleep(OPEN_POLL_MS),
            ProbeReport::Failed => WaitAction::Finish(WaitOutcome::Failed),
        },
    }
}

/// What follows a sleep, and what a wait starts with: another probe, unless
/// the time slept has reached the timeout.
pub open spec fn after_sleep(timeout_ms: Option<u64>, waited_ms: int) -> WaitAction {
    match timeout_ms {
        None => WaitAction::Probe,
        Some(limit) => if waited_ms < limit {
            WaitAction::Probe
        } else {
            WaitAction::Finish(WaitOutcome::TimedOut)
        },
    }
}

/// A wait that has just been asked for.
pub open spec fn start(kind: WaitKind, target: Seq<char>, timeout_ms: Option<u64>) -> WaitModel {
    WaitModel { kind, target, timeout_ms, waited_ms: 0, pending: after_sleep(timeout_ms, 0) }
}

/// `a + b`, held at `u64::MAX`.
pub open spec fn capped_sum(a: int, b: int) -> int {
    if a + b > u64::MAX {
        u64::MAX as int
    } else {
        a + b
    }
}

/// The machine's one rule: from a state and a report to the next state. A
/// report that does not answer what the machine asked for changes nothing.
pub open spec fn step(s: WaitModel, event: WaitEvent) -> WaitModel {
    match (s.pending, event) {
        (WaitAction::Probe, WaitEvent::Probed(report)) => WaitModel {
            pending: after_probe(s.timeout_ms, report),
            ..s
        },
        (WaitAction::Sleep(ms), WaitEvent::Slept) => {
            let waited_ms = capped_sum(s.waited_ms, ms as int);
            WaitModel { waited_ms, pending: after_sleep(s.timeout_ms, waited_ms), ..s }
        },
        _ => s,
    }
}

/// The probe that answers a wait's question: the one question about a
/// process for both waits for a process, the one about a window for both
/// waits for a window.
pub open spec fn probe_plan(platform: Platform, kind: WaitKind, target: Seq<char>)
    -> crate::inspector::ProbeView {
    match kind {
        WaitKind::Process => is_process_running_plan(platform, target),
        WaitKind::Window => is_window_open_plan(platform, target),
    }
}

impl View for WaitRequest {
    type V = (WaitKind, Seq<char>, Option<u64>);

    open spec fn view(&self) -> (WaitKind, Seq<char>, Option<u64>) {
        (self.kind, self.target@, self.timeout_ms)
    }
}

impl WaitRequest {
    /// The fixed delay between two probes of this wait.
    pub fn poll_interval_ms(&self) -> (ms: u64)
        ensures
            ms == poll_interval(self.timeout_ms),
    {
        if self.timeout_ms.is_some() {
            OPEN_POLL_MS
        } else {
            CLOSE_POLL_MS
        }
    }

    /// Plans the probe that answers this wait's question on `platform`. Only
    /// a window title with a NUL character in it, on Windows, is refused; the
    /// wait is then told `ProbeReport::Failed` when it asks for its first
    /// probe, and ends as failed.
    pub fn probe(&self, platform: Platform) -> (planned: Result<Probe, QueryError>)
        ensures
            planned is Err <==> self.kind == WaitKind::Window && platform == Platform::Windows
                && self.target@.contains('\0'),
            planned matches Ok(p) ==> p@ == probe_plan(platform, self.kind, self.target@),
            planned matches Err(e) ==> e == QueryError::NulInTitle,
    {
        match self.kind {
            WaitKind::Process => Ok(is_process_running(platform, self.target.as_str())),
            WaitKind::Window => is_window_open(platform, self.target.as_str()),
        }
    }
}

impl View for Wait {
    type V = WaitModel;

    closed spec fn view(&self) -> WaitModel {
        WaitModel {
            kind: self.request.kind,
            target: self.request.target@,
            timeout_ms: self.request.timeout_ms,
            waited_ms: self.waited_ms as int,
            pending: self.pending,
        }
    }
}

/// The first thing a wait asks for.
fn first_action(timeout_ms: Option<u64>) -> (action: WaitAction)
    ensures
        action == after_sleep(timeout_ms, 0),
{
    match timeout_ms {
        None => WaitAction::Probe,
        Some(limit) => if 0 < limit {
            WaitAction::Probe
        } else {
            WaitAction::Finish(WaitOutcome::TimedOut)
        },
    }
}

/// Starts the wait behind `waitUntilWindowClose`.
pub fn wait_until_window_closed(title: &str) -> (wait: Wait)
    ensures
        wait@ == start(WaitKind::Window, title@, None),
{
    Wait {
        request: WaitRequest {
            kind: WaitKind::Window,
            target: String::from_str(title),
            timeout_ms: None,
        },
        waited_ms: 0,
        pending: first_action(None),
    }
}

/// Starts the wait behind `waitUntilAppClose`.
pub fn wait_until_app_closed(name: &str) -> (wait: Wait)
    ensures
        wait@ == start(WaitKind::Process, name@, None),
{
    Wait {
        request: WaitRequest {
            kind: WaitKind::Process,
            target: String::from_str(name),
            timeout_ms: None,
        },
        waited_ms: 0,
        pending: first_action(None),
    }
}

/// Starts the wait behind `waitUntilAppOpen`.
pub fn wait_app_opened(name: &str, timeout_ms: u64) -> (wait: Wait)
    ensures
        wait@ == start(WaitKind::Process, name@, Some(timeout_ms)),
{
    Wait {
        request: WaitRequest {
            kind: WaitKind::Process,
            target: String::from_str(name),
            timeout_ms: Some(timeout_ms),
        },
        waited_ms: 0,
        pending: first_action(Some(timeout_ms)),
    }
}

/// Starts the wait behind `waitUntilWindowOpen`.
pub fn wait_window_opened(title: &str, timeout_ms: u64) -> (wait: Wait)
    ensures
        wait@ == start(WaitKind::Window, title@, Some(timeout_ms)),
{
    Wait {
        request: WaitRequest {
            kind: WaitKind::Window,
            target: String::from_str(title),
            timeout_ms: Some(timeout_ms),
        },
        waited_ms: 0,
        pending: first_action(Some(timeout_ms)),
    }
}

impl Wait {
    /// What was asked for.
    pub fn request(&self) -> (request: &WaitRequest)
        ensures
            request@ == (self@.kind, self@.target, self@.timeout_ms),
    {
        &self.request
    }

    /// The time slept so far, in milliseconds.
    pub fn waited_ms(&self) -> (ms: u64)
        ensures
            ms == self@.waited_ms,
    {
        self.waited_ms
    }

    /// What the machine asks for now.
    pub fn action(&self) -> (action: WaitAction)
        ensures
            action == self@.pending,
    {
        self.pending
    }

    /// Takes a report and moves on. The result is what the machine asks for
    /// next.
    pub fn step(&mut self, event: WaitEvent) -> (action: WaitAction)
        ensures
            final(self)@ == step(old(self)@, event),
            action == final(self)@.pending,
    {
        match (self.pending, event) {
            (WaitAction::Probe, WaitEvent::Probed(report)) => {
                self.pending =
                match self.request.timeout_ms {
                    None => match report {
                        ProbeReport::Present => WaitAction::Sleep(CLOSE_POLL_MS),
                        ProbeReport::Absent => WaitAction::Finish(WaitOutcome::Closed),
                        ProbeReport::Failed => WaitAction::Finish(WaitOutcome::Failed),
                    },
                    Some(_) => match report {
                        ProbeReport::Present => WaitAction::Finish(WaitOutcome::Opened),
                        ProbeReport::Absent => WaitAction::Sleep(OPEN_POLL_MS),
                        ProbeReport::Failed => WaitAction::Finish(WaitOutcome::Failed),
                    },
                };
            },
            (WaitAction::Sleep(ms), WaitEvent::Slept) => {
                self.waited_ms = self.waited_ms.saturating_add(ms);
                self.pending =
                match self.request.timeout_ms {
                    None => WaitAction::Probe,
                    Some(limit) => if self.waited_ms < limit {
                        WaitAction::Probe
                    } else {
                        WaitAction::Finish(WaitOutcome::TimedOut)
                    },
                };
            },
            _ => {},
        }
        self.pending
    }
}

/// A wait played against a list of probe results: where it stands in the end,
/// how many probes it made and how long the script slept.
pub ghost struct Run {
    pub end: WaitModel,
    pub polls: int,
    pub slept_ms: int,
}

/// Plays a wait from state `s`: every probe it asks for gets the next report
/// of `reports`, every sleep is slept. The play stops when the wait is over,
/// or when it asks for a probe and no report is left.
pub open spec fn run(s: WaitModel, reports: Seq<ProbeReport>) -> Run
    decreases reports.len(), (if s.pending is Sleep { 1int } else { 0int }),
{
    match s.pending {
        WaitAction::Finish(_) => Run { end: s, polls: 0, slept_ms: 0 },
        WaitAction::Probe => if reports.len() == 0 {
            Run { end: s, polls: 0, slept_ms: 0 }
        } else {
            let rest = run(step(s, WaitEvent::Probed(reports[0])), reports.drop_first());
            Run { polls: rest.polls + 1, ..rest }
        },
        WaitAction::Sleep(ms) => {
            let rest = run(step(s, WaitEvent::Slept), reports);
            Run { slept_ms: rest.slept_ms + ms, ..rest }
        },
    }
}

/// The number of probes that a wait for opening makes before it gives up:
/// the timeout divided by the cadence, rounded up.
pub open spec fn polls_before_timeout(timeout_ms: u64) -> int {
    (timeout_ms + OPEN_POLL_MS - 1) / (OPEN_POLL_MS as int)
}

/// The probes left to a wait for opening that has slept `waited_ms`.
spec fn polls_left(timeout_ms: u64, waited_ms: int) -> int {
    (timeout_ms - waited_ms + OPEN_POLL_MS - 1) / (OPEN_POLL_MS as int)
}

proof fn opened_run_without_appearance(s: WaitModel, reports: Seq<ProbeReport>)
    requires
        s.timeout_ms is Some,
        s.pending == WaitAction::Probe,
        0 <= s.waited_ms < s.timeout_ms->0,
        forall|i: int| 0 <= i < reports.len() ==> reports[i] == ProbeReport::Absent,
        reports.len() >= polls_left(s.timeout_ms->0, s.waited_ms),
    ensures
        run(s, reports).end.pending == WaitAction::Finish(WaitOutcome::TimedOut),
        run(s, reports).polls == polls_left(s.timeout_ms->0, s.waited_ms),
        run(s, reports).slept_ms == OPEN_POLL_MS * polls_left(s.timeout_ms->0, s.waited_ms),
    decreases reports.len(),
{
    let limit = s.timeout_ms->0;
    assert(polls_left(limit, s.waited_ms) >= 1);
    let probed = step(s, WaitEvent::Probed(reports[0]));
    assert(probed.pending == WaitAction::Sleep(OPEN_POLL_MS));
    let slept = step(probed, WaitEvent::Slept);
    let rest = reports.drop_first();
    assert(run(s, reports).polls == run(probed, rest).polls + 1);
    assert(run(probed, rest).slept_ms == run(slept, rest).slept_ms + OPEN_POLL_MS);
    if slept.waited_ms < limit {
        assert(slept.waited_ms == s.waited_ms + OPEN_POLL_MS);
        assert(polls_left(limit, slept.waited_ms) == polls_left(limit, s.waited_ms) - 1);
        opened_run_without_appearance(slept, rest);
    } else {
        assert(polls_left(limit, s.waited_ms) == 1);
    }
}

proof fn opened_run_to_change(s: WaitModel, reports: Seq<ProbeReport>, k: int)
    requires
        s.timeout_ms is Some,
        s.pending == WaitAction::Probe,
        0 <= s.waited_ms < s.timeout_ms->0,
        0 <= k < reports.len(),
        k < polls_left(s.timeout_ms->0, s.waited_ms),
        reports[k] != ProbeReport::Absent,
        forall|i: int| 0 <= i < k ==> reports[i] == ProbeReport::Absent,
    ensures
        run(s, reports).end.pending == after_probe(s.timeout_ms, reports[k]),
        run(s, reports).polls == k + 1,
        run(s, reports).slept_ms == OPEN_POLL_MS * k,
        s.waited_ms + OPEN_POLL_MS * k < s.timeout_ms->0,
    decreases k,
{
    let limit = s.timeout_ms->0;
    let probed = step(s, WaitEvent::Probed(reports[0]));
    let rest = reports.drop_first();
    assert(run(s, reports).polls == run(probed, rest).polls + 1);
    if k > 0 {
        assert(probed.pending == WaitAction::Sleep(OPEN_POLL_MS));
        let slept = step(probed, WaitEvent::Slept);
        assert(run(probed, rest).slept_ms == run(slept, rest).slept_ms + OPEN_POLL_MS);
        assert(polls_left(limit, s.waited_ms) >= 2);
        assert(slept.waited_ms == s.waited_ms + OPEN_POLL_MS);
        assert(polls_left(limit, slept.waited_ms) == polls_left(limit, s.waited_ms) - 1);
        assert(rest[k - 1] == reports[k]);
        assert forall|i: int| 0 <= i < k - 1 implies rest[i] == ProbeReport::Absent by {
            assert(rest[i] == reports[i + 1]);
        }
        opened_run_to_change(slept, rest, k - 1);
    }
}

proof fn closed_run(s: WaitModel, reports: Seq<ProbeReport>, k: int)
    requires
        s.timeout_ms is None,
        s.pending == WaitAction::Probe,
        0 <= k <= reports.len(),
        forall|i: int| 0 <= i < k ==> reports[i] == ProbeReport::Present,
        k < reports.len() ==> reports[k] != ProbeReport::Present,
    ensures
        run(s, reports).polls == (if k < reports.len() { k + 1 } else { k }),
        run(s, reports).slept_ms == CLOSE_POLL_MS * k,
        run(s, reports).end.pending == (if k < reports.len() {
            after_probe(None, reports[k])
        } else {
            WaitAction::Probe
        }),
    decreases k,
{
    if reports.len() > 0 {
        let probed = step(s, WaitEvent::Probed(reports[0]));
        let rest = reports.drop_first();
        assert(run(s, reports).polls == run(probed, rest).polls + 1);
        if k > 0 {
            assert(probed.pending == WaitAction::Sleep(CLOSE_POLL_MS));
            let slept = step(probed, WaitEvent::Slept);
            assert(run(probed, rest).slept_ms == run(slept, rest).slept_ms + CLOSE_POLL_MS);
            assert forall|i: int| 0 <= i < k - 1 implies rest[i] == ProbeReport::Present by {
                assert(rest[i] == reports[i + 1]);
            }
            if k < reports.len() {
                assert(rest[k - 1] == reports[k]);
            }
            closed_run(slept, rest, k - 1);
        }
    }
}

/// A wait for opening whose target never shows, and whose probes all go
/// through, gives up, and not early: it ends as timed out after
/// `polls_before_timeout` probes, one sleep after each, and the time slept is
/// no less than the timeout.
pub proof fn wait_opened_gives_up_after_timeout(
    kind: WaitKind,
    target: Seq<char>,
    timeout_ms: u64,
    reports: Seq<ProbeReport>,
)
    requires
        forall|i: int| 0 <= i < reports.len() ==> reports[i] == ProbeReport::Absent,
        reports.len() >= polls_before_timeout(timeout_ms),
    ensures
        ({
            let r = run(start(kind, target, Some(timeout_ms)), reports);
            &&& r.end.pending == WaitAction::Finish(WaitOutcome::TimedOut)
            &&& r.polls == polls_before_timeout(timeout_ms)
            &&& r.slept_ms == OPEN_POLL_MS * r.polls
            &&& r.slept_ms >= timeout_ms
        }),
{
    let s = start(kind, target, Some(timeout_ms));
    if timeout_ms > 0 {
        opened_run_without_appearance(s, reports);
    }
}

/// A wait for opening ends as opened at the first probe that finds the
/// target, if that probe comes before the timeout: after `k` probes that
/// found nothing and as many sleeps it has made `k + 1` probes and slept `k`
/// times the cadence.
pub proof fn wait_opened_ends_at_first_appearance(
    kind: WaitKind,
    target: Seq<char>,
    timeout_ms: u64,
    reports: Seq<ProbeReport>,
    k: int,
)
    requires
        0 <= k < reports.len(),
        k < polls_before_timeout(timeout_ms),
        reports[k] == ProbeReport::Present,
        forall|i: int| 0 <= i < k ==> reports[i] == ProbeReport::Absent,
    ensures
        ({
            let r = run(start(kind, target, Some(timeout_ms)), reports);
            &&& r.end.pending == WaitAction::Finish(WaitOutcome::Opened)
            &&& r.polls == k + 1
            &&& r.slept_ms == OPEN_POLL_MS * k
            &&& r.slept_ms < timeout_ms
        }),
{
    let s = start(kind, target, Some(timeout_ms));
    opened_run_to_change(s, reports, k);
}

/// A wait for opening ends as failed at the first probe that fails, if that
/// probe comes before the timeout and before the target is found: the
/// failure is never taken for "not yet", and no probe follows it.
pub proof fn wait_opened_ends_at_first_failure(
    kind: WaitKind,
    target: Seq<char>,
    timeout_ms: u64,
    reports: Seq<ProbeReport>,
    k: int,
)
    requires
        0 <= k < reports.len(),
        k < polls_before_timeout(timeout_ms),
        reports[k] == ProbeReport::Failed,
        forall|i: int| 0 <= i < k ==> reports[i] == ProbeReport::Absent,
    ensures
        ({
            let r = run(start(kind, target, Some(timeout_ms)), reports);
            &&& r.end.pending == WaitAction::Finish(WaitOutcome::Failed)
            &&& r.polls == k + 1
            &&& r.slept_ms == OPEN_POLL_MS * k
            &&& r.slept_ms < timeout_ms
        }),
{
    let s = start(kind, target, Some(timeout_ms));
    opened_run_to_change(s, reports, k);
}

/// A wait for closing ends at the first probe that does not find the target:
/// as closed if the target is gone, as failed if the probe failed. Until then
/// it sleeps one cadence after every probe.
pub proof fn wait_closed_ends_at_first_change(
    kind: WaitKind,
    target: Seq<char>,
    reports: Seq<ProbeReport>,
    k: int,
)
    requires
        0 <= k < reports.len(),
        reports[k] != ProbeReport::Present,
        forall|i: int| 0 <= i < k ==> reports[i] == ProbeReport::Present,
    ensures
        ({
            let r = run(start(kind, target, None), reports);
            &&& r.end.pending == WaitAction::Finish(
                if reports[k] == ProbeReport::Absent {
                    WaitOutcome::Closed
                } else {
                    WaitOutcome::Failed
                },
            )
            &&& r.polls == k + 1
            &&& r.slept_ms == CLOSE_POLL_MS * k
        }),
{
    closed_run(start(kind, target, None), reports, k);
}

/// A wait for closing has no end of its own: as long as every probe finds
/// the target, it goes on asking for the next one.
pub proof fn wait_closed_goes_on_while_present(
    kind: WaitKind,
    target: Seq<char>,
    reports: Seq<ProbeReport>,
)
    requires
        forall|i: int| 0 <= i < reports.len() ==> reports[i] == ProbeReport::Present,
    ensures
        ({
            let r = run(start(kind, target, None), reports);
            &&& r.end.pending == WaitAction::Probe
            &&& r.polls == reports.len()
            &&& r.slept_ms == CLOSE_POLL_MS * reports.len()
        }),
{
    closed_run(start(kind, target, None), reports, reports.len() as int);
}

} // verus!
