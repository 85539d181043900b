//! The in-memory log ring: entries, their file format, the bounded
//! buffer the UI reads, and the target/level filter.

use vstd::prelude::*;
use std::collections::VecDeque;
use crate::strutil::{seq_contains_seq, seq_starts_with, str_contains, str_starts_with};

verus! {

/// One captured log line.
#[derive(Debug)]
pub struct LogEntry {
    pub timestamp: String,
    pub level: String,
    pub message: String,
    pub target: String,
}

/// The file form of an entry: `[time] [level] [target] message` and a
/// line break.
pub open spec fn file_line_spec(e: LogEntry) -> Seq<char> {
    "["@ + e.timestamp@ + "] ["@ + e.level@ + "] ["@ + e.target@ + "] "@ + e.message@ + "\n"@
}

impl LogEntry {
    pub fn new(timestamp: String, level: String, message: String, target: String) -> (r: Self)
        ensures
            r == (LogEntry { timestamp, level, message, target }),
    {
        LogEntry { timestamp, level, message, target }
    }

    /// A field-exact copy.
    pub fn duplicate(&self) -> (r: Self)
        ensures
            r == *self,
    {
        LogEntry {
            timestamp: self.timestamp.clone(),
            level: self.level.clone(),
            message: self.message.clone(),
            target: self.target.clone(),
        }
    }

    /// Renders the entry as the line written to the log file.
    pub fn format_for_file(&self) -> (r: String)
        ensures
            r@ == file_line_spec(*self),
    {
        let mut r = String::from_str("[");
        r.append(self.timestamp.as_str());
        r.append("] [");
        r.append(self.level.as_str());
        r.append("] [");
        r.append(self.target.as_str());
        r.append("] ");
        r.append(self.message.as_str());
        r.append("\n");
        proof {
            assert(r@ =~= file_line_spec(*self));
        }
        r
    }
}

/// A log severity, most severe first.
#[derive(Debug, Clone, Copy, PartialEq, Eq, Structural)]
pub enum LogLevel {
    Error,
    Warn,
    Info,
    Debug,
    Trace,
}

/// Numeric rank of a severity; smaller is more severe.
pub open spec fn level_rank_spec(l: LogLevel) -> int {
    match l {
        LogLevel::Error => 1,
        LogLevel::Warn => 2,
        LogLevel::Info => 3,
        LogLevel::Debug => 4,
        LogLevel::Trace => 5,
    }
}

impl LogLevel {
    pub fn rank(&self) -> (r: u32)
        ensures
            r == level_rank_spec(*self),
    {
        match self {
            LogLevel::Error => 1,
            LogLevel::Warn => 2,
            LogLevel::Info => 3,
            LogLevel::Debug => 4,
            LogLevel::Trace => 5,
        }
    }
}

/// The record filter: windowing and graphics layers are muted, this
/// application's own targets always pass, and anything else passes only
/// at informational severity or above.
pub open spec fn log_enabled_spec(target: Seq<char>, level: LogLevel) -> bool {
    if seq_contains_seq(target, "winit"@) {
        false
    } else if seq_contains_seq(target, "wgpu"@) && level_rank_spec(level) > level_rank_spec(
        LogLevel::Error,
    ) {
        false
    } else if seq_contains_seq(target, "tao"@) {
        false
    } else if seq_contains_seq(target, "wry"@) && level_rank_spec(level) > level_rank_spec(
        LogLevel::Error,
    ) {
        false
    } else {
        ||| seq_starts_with(target, "snaplock"@)
        ||| seq_starts_with(target, "crate"@)
        ||| (level_rank_spec(level) <= level_rank_spec(LogLevel::Info) && !seq_contains_seq(
            target,
            "winit"@,
        ) && !seq_contains_seq(target, "tao"@))
    }
}

/// Decides whether a record with this target and severity is kept.
pub fn log_enabled(target: &str, level: LogLevel) -> (r: bool)
    ensures
        r == log_enabled_spec(target@, level),
{
    if str_contains(target, "winit") {
        return false;
    }
    if str_contains(target, "wgpu") && level.rank() > 1 {
        return false;
    }
    if str_contains(target, "tao") {
        return false;
    }
    if str_contains(target, "wry") && level.rank() > 1 {
        return false;
    }
    str_starts_with(target, "snaplock") || str_starts_with(target, "crate") || (level.rank() <= 3
        && !str_contains(target, "winit") && !str_contains(target, "tao"))
}

/// A bounded ring of recent log entries: once full, the oldest entry
/// makes room for the newest.
pub struct LogBuffer {
    pub logs: VecDeque<LogEntry>,
    pub max_logs: usize,
}

impl LogBuffer {
    /// The buffer never outgrows its bound, which is positive.
    pub open spec fn wf(&self) -> bool {
        self.logs@.len() <= self.max_logs && self.max_logs >= 1
    }

    pub fn new(max_logs: usize) -> (r: Self)
        requires
            max_logs >= 1,
        ensures
            r.wf(),
            r.max_logs == max_logs,
            r.logs@ == Seq::<LogEntry>::empty(),
    {
        LogBuffer { logs: VecDeque::with_capacity(max_logs), max_logs }
    }

    /// Appends an entry, dropping the oldest one when the buffer is full.
    pub fn push(&mut self, entry: LogEntry)
        requires
            old(self).wf(),
        ensures
            final(self).wf(),
            final(self).max_logs == old(self).max_logs,
            final(self).logs@ == if old(self).logs@.len() < old(self).max_logs {
                old(self).logs@.push(entry)
            } else {
                old(self).logs@.drop_first().push(entry)
            },
    {
        if self.logs.len() >= self.max_logs {
            let _ = self.logs.pop_front();
        }
        self.logs.push_back(entry);
    }

    pub fn len(&self) -> (r: usize)
        ensures
            r == self.logs@.len(),
    {
        self.logs.len()
    }

    /// A snapshot of the buffered entries, oldest first.
    pub fn get_logs(&self) -> (r: Vec<LogEntry>)
        ensures
            r@ == self.logs@,
    {
        let mut out: Vec<LogEntry> = Vec::new();
        let mut i: usize = 0;
        while i < self.logs.len()
            invariant
                0 <= i <= self.logs@.len(),
                out@.len() == i,
                forall|k: int| 0 <= k < i ==> out@[k] == self.logs@[k],
            decreases self.logs@.len() - i,
        {
            out.push(self.logs[i].duplicate());
            i += 1;
        }
        proof {
            assert(out@ =~= self.logs@);
        }
        out
    }

    /// Drops every buffered entry.
    pub fn clear_logs(&mut self)
        ensures
            final(self).logs@ == Seq::<LogEntry>::empty(),
            final(self).max_logs == old(self).max_logs,
            old(self).wf() ==> final(self).wf(),
    {
        self.logs.clear();
    }
}

} // verus!
