//! Leveled, line-oriented logging records.
//!
//! The logger formats each message into a timestamped, leveled line and keeps
//! the sequence of lines it has produced; the process around the library
//! mirrors every produced line to the durable sink and to the console.  A
//! failure of that mirroring is best-effort from the library's point of view
//! and never feeds back into the pool.

use vstd::prelude::*;
use vstd::string::StringExecFns;

verus! {

/// Severity of a log record.
#[derive(Clone, Copy, PartialEq, Eq, Structural, Debug)]
pub enum LogLevel {
    Info,
    Warn,
    Error,
    Debug,
}

/// The tag that a level contributes to a formatted line.
pub open spec fn level_tag(level: LogLevel) -> Seq<char> {
    match level {
        LogLevel::Info => "INFO"@,
        LogLevel::Warn => "WARN"@,
        LogLevel::Error => "ERROR"@,
        LogLevel::Debug => "DEBUG"@,
    }
}

impl LogLevel {
    /// The textual tag of this level, exactly as it appears in a line.
    pub fn as_str(&self) -> (r: &'static str)
        ensures
            r@ == level_tag(*self),
    {
        match self {
            LogLevel::Info => "INFO",
            LogLevel::Warn => "WARN",
            LogLevel::Error => "ERROR",
            LogLevel::Debug => "DEBUG",
        }
    }
}

/// The full text of one log record: the timestamp and the level tag in
/// brackets, then the message.
pub open spec fn log_line(level: LogLevel, ts: Seq<char>, msg: Seq<char>) -> Seq<char> {
    "["@ + ts + "] ["@ + level_tag(level) + "] "@ + msg
}

/// Relies on chrono's `Utc::now` and `DateTime::format`: the current wall
/// clock rendered as year-month-day hour:minute:second.  The result depends
/// on the moment of the call, so nothing is promised of it.
#[verifier::external_body]
fn utc_timestamp() -> String {
    chrono::Utc::now().format("%Y-%m-%d %H:%M:%S").to_string()
}

/// Format one record from its parts, exactly as it is logged.
pub fn format_line(level: LogLevel, ts: &str, message: &str) -> (line: String)
    ensures
        line@ == log_line(level, ts@, message@),
{
    let mut line = String::from_str("[");
    line.append(ts);
    line.append("] [");
    line.append(level.as_str());
    line.append("] ");
    line.append(message);
    line
}

/// The structured logger: it turns leveled messages into timestamped lines
/// and keeps the sequence of lines produced, in order.  The surrounding
/// process mirrors each produced line to the durable sink (whose path the
/// logger carries) and to a console stream, and treats a failure of either
/// as best-effort message loss, never as a pool failure.
pub struct Logger {
    log_file: String,
    lines: Vec<String>,
}

impl Logger {
    /// The path of the durable sink.
    pub closed spec fn spec_log_file(self) -> Seq<char> {
        self.log_file@
    }

    /// Every line this logger has produced, oldest first.
    pub closed spec fn records(self) -> Seq<Seq<char>> {
        self.lines.deep_view()
    }

    /// A logger writing to the given path.  Opening the sink itself is the
    /// surrounding process's work; if that fails, startup aborts with
    /// [`crate::pool::StartupError::LogSinkUnavailable`].
    pub fn new(log_file: &str) -> (l: Logger)
        ensures
            l.spec_log_file() == log_file@,
            l.records() == Seq::<Seq<char>>::empty(),
    {
        let l = Logger { log_file: String::from_str(log_file), lines: Vec::new() };
        proof {
            assert(l.lines.deep_view() =~= Seq::<Seq<char>>::empty());
        }
        l
    }

    /// The path of the durable sink.
    pub fn log_file_path(&self) -> (p: &String)
        ensures
            p@ == self.spec_log_file(),
    {
        &self.log_file
    }

    /// The path of the durable sink, as an owned string.
    pub fn log_file_path_as_string(&self) -> (p: String)
        ensures
            p@ == self.spec_log_file(),
    {
        String::from_str(self.log_file.as_str())
    }

    /// How many records this logger has produced.
    pub fn records_count(&self) -> (n: usize)
        ensures
            n == self.records().len(),
    {
        self.lines.len()
    }

    /// Produce one record at the given level: a line carrying the current
    /// timestamp, the level tag and the message is appended to the record
    /// sequence and handed back for mirroring.
    pub fn write_with_level(&mut self, level: LogLevel, message: &str) -> (line: String)
        ensures
            final(self).spec_log_file() == old(self).spec_log_file(),
            final(self).records() == old(self).records().push(line@),
            exists|ts: Seq<char>| line@ == log_line(level, ts, message@),
    {
        let ts = utc_timestamp();
        let line = format_line(level, ts.as_str(), message);
        let kept = format_line(level, ts.as_str(), message);
        self.lines.push(kept);
        proof {
            assert(self.lines.deep_view() =~= old(self).lines.deep_view().push(line@));
            assert(exists|t: Seq<char>| line@ == log_line(level, t, message@)) by {
                assert(line@ == log_line(level, ts@, message@));
            }
        }
        line
    }

    /// Log at info level.
    pub fn info(&mut self, message: &str) -> (line: String)
        ensures
            final(self).spec_log_file() == old(self).spec_log_file(),
            final(self).records() == old(self).records().push(line@),
            exists|ts: Seq<char>| line@ == log_line(LogLevel::Info, ts, message@),
    {
        self.write_with_level(LogLevel::Info, message)
    }

    /// Log at warn level.
    pub fn warn(&mut self, message: &str) -> (line: String)
        ensures
            final(self).spec_log_file() == old(self).spec_log_file(),
            final(self).records() == old(self).records().push(line@),
            exists|ts: Seq<char>| line@ == log_line(LogLevel::Warn, ts, message@),
    {
        self.write_with_level(LogLevel::Warn, message)
    }

    /// Log at error level.
    pub fn error(&mut self, message: &str) -> (line: String)
        ensures
            final(self).spec_log_file() == old(self).spec_log_file(),
            final(self).records() == old(self).records().push(line@),
            exists|ts: Seq<char>| line@ == log_line(LogLevel::Error, ts, message@),
    {
        self.write_with_level(LogLevel::Error, message)
    }

    /// Log at debug level.
    pub fn debug(&mut self, message: &str) -> (line: String)
        ensures
            final(self).spec_log_file() == old(self).spec_log_file(),
            final(self).records() == old(self).records().push(line@),
            exists|ts: Seq<char>| line@ == log_line(LogLevel::Debug, ts, message@),
    {
        self.write_with_level(LogLevel::Debug, message)
    }
}

/// Where one log call goes when the logger sits behind a shared guard.
#[derive(Clone, Copy, PartialEq, Eq, Structural, Debug)]
pub enum LogRoute {
    /// The guard is healthy: take it and write through the logger.
    ThroughLogger,
    /// The guard was poisoned by a holder that died: write the message
    /// directly to the console, unguarded, together with a warning that the
    /// guard is poisoned.  The record is lost to the durable sink.
    ConsoleFallback,
}

/// Decide how a log call reaches an output.  A poisoned guard degrades to a
/// local console fallback and is absorbed there: message loss reduces
/// observability but never propagates as a failure into the pool.
pub fn route_log_call(guard_poisoned: bool) -> (r: LogRoute)
    ensures
        r == LogRoute::ConsoleFallback <==> guard_poisoned,
        r == LogRoute::ThroughLogger <==> !guard_poisoned,
{
    if guard_poisoned {
        LogRoute::ConsoleFallback
    } else {
        LogRoute::ThroughLogger
    }
}

/// The warning printed beside a message that took the console fallback.
pub fn poisoned_guard_warning() -> (w: &'static str)
    ensures
        w@ == "WARNING: Logger mutex is poisoned, using stderr fallback"@,
{
    "WARNING: Logger mutex is poisoned, using stderr fallback"
}

} // verus!
