//! The launcher's log: entries are added as things happen and handed out, all
//! at once, when the user interface asks for them.

use vstd::prelude::*;
use vstd::string::*;
use crate::text::join;

verus! {

/// How grave a log entry is.
#[derive(Clone, Copy, Debug, PartialEq, Eq, Structural)]
pub enum LogLevel {
    Info,
    Warning,
    Error,
}

/// One entry of the log.
#[derive(Debug, PartialEq, Eq)]
pub struct LogEntry {
    message: String,
    level: LogLevel,
}

impl View for LogEntry {
    type V = (Seq<char>, LogLevel);

    closed spec fn view(&self) -> (Seq<char>, LogLevel) {
        (self.message@, self.level)
    }
}

impl LogEntry {
    /// The text of the entry.
    pub fn message(&self) -> (message: &String)
        ensures
            message@ == self@.0,
    {
        &self.message
    }

    /// How grave the entry is.
    pub fn level(&self) -> (level: LogLevel)
        ensures
            level == self@.1,
    {
        self.level
    }
}

/// What a list of entries holds, in order.
pub open spec fn entries_of(entries: Seq<LogEntry>) -> Seq<(Seq<char>, LogLevel)> {
    Seq::new(entries.len(), |i: int| entries[i]@)
}

/// The entries that were added and not yet handed out, oldest first.
#[derive(Debug, PartialEq, Eq)]
pub struct Logs {
    held: Vec<LogEntry>,
}

impl View for Logs {
    type V = Seq<(Seq<char>, LogLevel)>;

    closed spec fn view(&self) -> Seq<(Seq<char>, LogLevel)> {
        entries_of(self.held@)
    }
}

impl Logs {
    /// A log that holds nothing.
    pub fn new() -> (logs: Logs)
        ensures
            logs@ == Seq::<(Seq<char>, LogLevel)>::empty(),
    {
        let logs = Logs { held: Vec::new() };
        assert(logs@ =~= Seq::<(Seq<char>, LogLevel)>::empty());
        logs
    }

    /// Adds an entry at the end.
    pub fn add_log(&mut self, log: String, level: LogLevel)
        ensures
            final(self)@ == old(self)@.push((log@, level)),
    {
        self.held.push(LogEntry { message: log, level });
        assert(self@ =~= old(self)@.push((log@, level)));
    }

    /// Hands out the entries held, oldest first, and holds none afterwards:
    /// no entry is handed out twice.
    pub fn get_logs(&mut self) -> (held: Vec<LogEntry>)
        ensures
            entries_of(held@) == old(self)@,
            final(self)@ == Seq::<(Seq<char>, LogLevel)>::empty(),
    {
        let mut held: Vec<LogEntry> = Vec::new();
        core::mem::swap(&mut self.held, &mut held);
        assert(self@ =~= Seq::<(Seq<char>, LogLevel)>::empty());
        held
    }
}

/// A line of the terminal log: the name in square brackets, a space, and the
/// text.
pub open spec fn log_line_of(name: Seq<char>, text: Seq<char>) -> Seq<char> {
    "["@ + name + "] "@ + text
}

/// The line under which `text` is logged for the script or the part of the
/// launcher called `name`.
pub fn log_line(name: &str, text: &str) -> (line: String)
    ensures
        line@ == log_line_of(name@, text@),
{
    let bracket = join(join("[", name).as_str(), "] ");
    join(bracket.as_str(), text)
}

} // verus!
