//! The in-memory log ring: a bounded buffer of entries the host can read
//! back, plus the last error and the last panic message.
//!
//! The ring holds at most 1000 entries and evicts the oldest on overflow.
//! The embedding owns the guard around the collector and the hook that
//! feeds panics into it.

use vstd::prelude::*;

verus! {

/// Relies on `String::push_str`: appends the slice's characters to the
/// string.
pub assume_specification[ String::push_str ](s: &mut String, other: &str)
    ensures
        final(s)@ == old(s)@ + other@,
;

/// Relies on `std::time::SystemTime::now`: a wall-clock reading converted
/// to milliseconds since the epoch. Nothing is promised of the value.
#[verifier::external_body]
fn now_millis() -> u64 {
    match std::time::SystemTime::now().duration_since(std::time::UNIX_EPOCH) {
        Ok(d) => d.as_millis() as u64,
        Err(_) => 0,
    }
}

/// The severity of a log entry.
#[derive(Debug, Clone, Copy, PartialEq, Eq, Structural)]
pub enum LogLevel {
    Error,
    Warn,
    Info,
    Debug,
    Trace,
}

/// The display label of a severity.
pub open spec fn level_label(level: LogLevel) -> Seq<char> {
    match level {
        LogLevel::Error => "ERROR"@,
        LogLevel::Warn => "WARN"@,
        LogLevel::Info => "INFO"@,
        LogLevel::Debug => "DEBUG"@,
        LogLevel::Trace => "TRACE"@,
    }
}

fn level_label_str(level: LogLevel) -> (r: &'static str)
    ensures
        r@ == level_label(level),
{
    match level {
        LogLevel::Error => "ERROR",
        LogLevel::Warn => "WARN",
        LogLevel::Info => "INFO",
        LogLevel::Debug => "DEBUG",
        LogLevel::Trace => "TRACE",
    }
}

/// One collected log entry.
#[derive(Debug, Clone)]
pub struct LogEntry {
    pub timestamp: u64,
    pub level: LogLevel,
    pub message: String,
    pub file: Option<String>,
    pub line: Option<u32>,
}

/// Two entries carry the same data (their strings compared by content).
pub open spec fn entry_equiv(a: LogEntry, b: LogEntry) -> bool {
    &&& a.timestamp == b.timestamp
    &&& a.level == b.level
    &&& a.message@ == b.message@
    &&& (a.file is Some <==> b.file is Some)
    &&& (a.file matches Some(af) ==> (b.file matches Some(bf) && af@ == bf@))
    &&& a.line == b.line
}

/// One entry's display line.
pub open spec fn line_of(e: LogEntry) -> Seq<char> {
    "["@ + level_label(e.level) + "] "@ + e.message@
}

/// The newline-joined display lines of a sequence of entries.
pub open spec fn logs_string_of(entries: Seq<LogEntry>) -> Seq<char>
    decreases entries.len(),
{
    if entries.len() == 0 {
        Seq::empty()
    } else if entries.len() == 1 {
        line_of(entries[0])
    } else {
        logs_string_of(entries.drop_last()) + "\n"@ + line_of(entries.last())
    }
}

/// The bounded in-memory log collector.
pub struct LogCollector {
    entries: Vec<LogEntry>,
    max_entries: usize,
    error_message: Option<String>,
    panic_message: Option<String>,
}

impl LogCollector {
    /// The collected entries, oldest first.
    pub closed spec fn entries_seq(self) -> Seq<LogEntry> {
        self.entries@
    }

    /// The ring's capacity.
    pub closed spec fn cap(self) -> int {
        self.max_entries as int
    }

    /// The last recorded error message.
    pub closed spec fn error_msg(self) -> Option<String> {
        self.error_message
    }

    /// The last recorded panic message.
    pub closed spec fn panic_msg(self) -> Option<String> {
        self.panic_message
    }

    /// The ring never exceeds its capacity of 1000 entries.
    pub open spec fn wf(self) -> bool {
        self.cap() == 1000 && self.entries_seq().len() <= self.cap()
    }

    /// Creates an empty collector holding at most 1000 entries.
    pub fn new() -> (r: LogCollector)
        ensures
            r.wf(),
            r.entries_seq() == Seq::<LogEntry>::empty(),
            r.error_msg() is None,
            r.panic_msg() is None,
    {
        let r = LogCollector {
            entries: Vec::new(),
            max_entries: 1000,
            error_message: None,
            panic_message: None,
        };
        assert(r.entries_seq() =~= Seq::<LogEntry>::empty());
        r
    }

    /// Records one entry, stamped with the current time; the oldest entry
    /// is evicted when the ring is full.
    pub fn log(&mut self, level: LogLevel, message: String, file: Option<String>, line: Option<
        u32,
    >)
        requires
            old(self).wf(),
        ensures
            final(self).wf(),
            final(self).error_msg() == old(self).error_msg(),
            final(self).panic_msg() == old(self).panic_msg(),
            final(self).entries_seq().len() >= 1,
            ({
                let e = final(self).entries_seq().last();
                &&& e.level == level
                &&& e.message@ == message@
                &&& e.file == file
                &&& e.line == line
            }),
            old(self).entries_seq().len() < 1000 ==> final(self).entries_seq().drop_last() == old(
                self,
            ).entries_seq(),
            old(self).entries_seq().len() == 1000 ==> final(self).entries_seq().drop_last() == old(
                self,
            ).entries_seq().remove(0),
    {
        let timestamp = now_millis();
        if self.entries.len() >= self.max_entries {
            self.entries.remove(0);
        }
        self.entries.push(LogEntry { timestamp, level, message, file, line });
        proof {
            if old(self).entries_seq().len() < 1000 {
                assert(self.entries_seq().drop_last() =~= old(self).entries_seq());
            } else {
                assert(self.entries_seq().drop_last() =~= old(self).entries_seq().remove(0));
            }
        }
    }

    /// A copy of every collected entry, oldest first.
    pub fn get_logs(&self) -> (r: Vec<LogEntry>)
        ensures
            r@.len() == self.entries_seq().len(),
            forall|k: int|
                0 <= k < r@.len() ==> entry_equiv(#[trigger] r@[k], self.entries_seq()[k]),
    {
        let mut out: Vec<LogEntry> = Vec::new();
        let n = self.entries.len();
        let mut k: usize = 0;
        while k < n
            invariant
                k <= n,
                n == self.entries_seq().len(),
                out@.len() == k,
                forall|m: int|
                    0 <= m < k ==> entry_equiv(#[trigger] out@[m], self.entries_seq()[m]),
            decreases n - k,
        {
            let e = &self.entries[k];
            let file_copy: Option<String> = match &e.file {
                Some(f) => Some(f.clone()),
                None => None,
            };
            out.push(
                LogEntry {
                    timestamp: e.timestamp,
                    level: e.level,
                    message: e.message.clone(),
                    file: file_copy,
                    line: e.line,
                },
            );
            k = k + 1;
        }
        out
    }

    /// Every entry joined into one display string: each line is the
    /// severity label in brackets, then the message; lines are
    /// newline-separated.
    pub fn get_logs_string(&self) -> (r: String)
        ensures
            r@ == logs_string_of(self.entries_seq()),
    {
        let mut s = String::new();
        let n = self.entries.len();
        let mut k: usize = 0;
        while k < n
            invariant
                k <= n,
                n == self.entries_seq().len(),
                s@ == logs_string_of(self.entries_seq().subrange(0, k as int)),
            decreases n - k,
        {
            if k > 0 {
                s.push_str("\n");
            }
            s.push_str("[");
            s.push_str(level_label_str(self.entries[k].level));
            s.push_str("] ");
            s.push_str(self.entries[k].message.as_str());
            proof {
                let pre = self.entries_seq().subrange(0, k as int);
                let cur = self.entries_seq().subrange(0, k as int + 1);
                assert(cur.drop_last() =~= pre);
                assert(cur.last() == self.entries_seq()[k as int]);
                if k == 0 {
                    assert(s@ =~= logs_string_of(cur));
                } else {
                    assert(s@ =~= logs_string_of(pre) + "\n"@ + line_of(cur.last()));
                }
            }
            k = k + 1;
        }
        proof {
            assert(self.entries_seq().subrange(0, n as int) =~= self.entries_seq());
        }
        s
    }

    /// Records an error message and logs it at error severity.
    pub fn set_error(&mut self, message: String)
        requires
            old(self).wf(),
        ensures
            final(self).wf(),
            final(self).error_msg() matches Some(m) && m@ == message@,
            final(self).panic_msg() == old(self).panic_msg(),
            final(self).entries_seq().len() >= 1,
            ({
                let e = final(self).entries_seq().last();
                &&& e.level == LogLevel::Error
                &&& e.message@ == message@
            }),
    {
        self.error_message = Some(message.clone());
        self.log(LogLevel::Error, message, None, None);
    }

    /// The last recorded error message, if any.
    pub fn get_error(&self) -> (r: Option<String>)
        ensures
            self.error_msg() is None ==> r is None,
            self.error_msg() matches Some(m) ==> (r matches Some(x) && x@ == m@),
    {
        match &self.error_message {
            Some(m) => Some(m.clone()),
            None => None,
        }
    }

    /// Records a panic message and logs it, prefixed, at error severity.
    pub fn set_panic(&mut self, message: String)
        requires
            old(self).wf(),
        ensures
            final(self).wf(),
            final(self).panic_msg() matches Some(m) && m@ == message@,
            final(self).error_msg() == old(self).error_msg(),
            final(self).entries_seq().len() >= 1,
            ({
                let e = final(self).entries_seq().last();
                &&& e.level == LogLevel::Error
                &&& e.message@ == "PANIC: "@ + message@
            }),
    {
        self.panic_message = Some(message.clone());
        let mut line = String::new();
        line.push_str("PANIC: ");
        line.push_str(message.as_str());
        assert(line@ =~= "PANIC: "@ + message@);
        self.log(LogLevel::Error, line, None, None);
    }

    /// The last recorded panic message, if any.
    pub fn get_panic(&self) -> (r: Option<String>)
        ensures
            self.panic_msg() is None ==> r is None,
            self.panic_msg() matches Some(m) ==> (r matches Some(x) && x@ == m@),
    {
        match &self.panic_message {
            Some(m) => Some(m.clone()),
            None => None,
        }
    }

    /// Drops every entry and the recorded error; a recorded panic message
    /// is kept.
    pub fn clear(&mut self)
        requires
            old(self).wf(),
        ensures
            final(self).wf(),
            final(self).entries_seq() == Seq::<LogEntry>::empty(),
            final(self).error_msg() is None,
            final(self).panic_msg() == old(self).panic_msg(),
            final(self).cap() == old(self).cap(),
    {
        self.entries.clear();
        self.error_message = None;
        assert(self.entries_seq() =~= Seq::<LogEntry>::empty());
    }
}

} // verus!
