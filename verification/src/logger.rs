//! The record of what the child writes.
//!
//! The child's standard output and standard error are each read line by
//! line, by a reader of their own, until the stream ends. A line is shown
//! on the operator's console where that is wanted, and it is added to the
//! log file with a tag that names the stream it came from. The log only
//! grows: nothing in it is changed or removed.

use vstd::prelude::*;
use crate::clock::{rfc3339_at, rfc3339_text};
use crate::locator::Locator;
use crate::path::{join, joined};
use crate::text::option_text;

verus! {

/// The stream that a line came from.
#[derive(Clone, Copy, Debug, PartialEq, Eq, Structural)]
pub enum StreamOrigin {
    Stdout,
    Stderr,
}

impl StreamOrigin {
    /// What a line of this stream begins with in the log.
    pub open spec fn tag_text(self) -> Seq<char> {
        match self {
            StreamOrigin::Stdout => "[STDOUT] "@,
            StreamOrigin::Stderr => "[STDERR] "@,
        }
    }

    /// What a line of this stream begins with on the console.
    pub open spec fn console_text(self) -> Seq<char> {
        match self {
            StreamOrigin::Stdout => "BACKEND STDOUT: "@,
            StreamOrigin::Stderr => "BACKEND STDERR: "@,
        }
    }

    /// What a line of this stream begins with in the log.
    pub fn tag(self) -> (res: &'static str)
        ensures
            res@ == self.tag_text(),
    {
        match self {
            StreamOrigin::Stdout => "[STDOUT] ",
            StreamOrigin::Stderr => "[STDERR] ",
        }
    }

    /// What a line of this stream begins with on the console.
    pub fn console_prefix(self) -> (res: &'static str)
        ensures
            res@ == self.console_text(),
    {
        match self {
            StreamOrigin::Stdout => "BACKEND STDOUT: ",
            StreamOrigin::Stderr => "BACKEND STDERR: ",
        }
    }
}

/// The log entry for `line`: its tag, the line, and a line feed.
pub open spec fn entry_of(origin: StreamOrigin, line: Seq<char>) -> Seq<char> {
    origin.tag_text() + line + "\n"@
}

/// What the console shows for `line`.
pub open spec fn echo_of(origin: StreamOrigin, line: Seq<char>) -> Seq<char> {
    origin.console_text() + line
}

/// The log entry for `line`.
pub fn log_entry(origin: StreamOrigin, line: &str) -> (res: String)
    ensures
        res@ == entry_of(origin, line@),
{
    let mut res = String::from_str(origin.tag());
    res.append(line);
    res.append("\n");
    res
}

/// What the console shows for `line`.
pub fn console_echo(origin: StreamOrigin, line: &str) -> (res: String)
    ensures
        res@ == echo_of(origin, line@),
{
    let mut res = String::from_str(origin.console_prefix());
    res.append(line);
    res
}

/// What is to be done with one line that was read.
#[derive(Clone, Debug, PartialEq, Eq)]
pub struct LineActions {
    /// What to print on the console, if anything.
    pub console: Option<String>,
    /// What to add to the log file.
    pub entry: String,
}

/// Decides what is done with `line`, read from `origin`: it is always
/// logged, and shown on the console where `echo` is set.
pub fn record_line(origin: StreamOrigin, line: &str, echo: bool) -> (res: LineActions)
    ensures
        res.entry@ == entry_of(origin, line@),
        option_text(res.console) == if echo {
            Some(echo_of(origin, line@))
        } else {
            None
        },
{
    let console = if echo {
        Some(console_echo(origin, line))
    } else {
        None
    };
    LineActions { console, entry: log_entry(origin, line) }
}

/// The reading of one of the child's streams, from its first line to its
/// end. It counts the lines read and those that could not be written to the
/// log file, so that a log that fails shows in the count and nowhere else:
/// the child and its supervisor go on as before.
#[derive(Clone, Copy, Debug, PartialEq, Eq, Structural)]
pub struct Drain {
    /// The stream that is read.
    pub origin: StreamOrigin,
    /// Whether its lines are shown on the console.
    pub echo: bool,
    /// Whether the stream has reached its end.
    pub ended: bool,
    /// How many lines were read, up to the largest number that fits.
    pub lines: u64,
    /// How many of them could not be written to the log file, up to the
    /// largest number that fits.
    pub lost: u64,
}

/// `count` and one more, up to the largest number that fits.
pub open spec fn bumped(count: u64) -> u64 {
    if count < u64::MAX {
        (count + 1) as u64
    } else {
        count
    }
}

impl Drain {
    /// The reading of `origin` before its first line.
    pub fn new(origin: StreamOrigin, echo: bool) -> (res: Drain)
        ensures
            res == (Drain { origin, echo, ended: false, lines: 0, lost: 0 }),
    {
        Drain { origin, echo, ended: false, lines: 0, lost: 0 }
    }

    /// Takes one line that was read and says what is to be done with it.
    /// After the end of the stream nothing is read any more: nothing is to
    /// be done and nothing is counted.
    pub fn on_line(&mut self, line: &str) -> (res: Option<LineActions>)
        ensures
            old(self).ended ==> res is None && *final(self) == *old(self),
            !old(self).ended ==> {
                &&& res is Some
                &&& res->0.entry@ == entry_of(old(self).origin, line@)
                &&& option_text(res->0.console) == if old(self).echo {
                    Some(echo_of(old(self).origin, line@))
                } else {
                    None
                }
                &&& *final(self) == (Drain { lines: bumped(old(self).lines), ..*old(self) })
            },
    {
        if self.ended {
            return None;
        }
        if self.lines < u64::MAX {
            self.lines = self.lines + 1;
        }
        Some(record_line(self.origin, line, self.echo))
    }

    /// Takes note that a line could not be written to the log file.
    pub fn on_write_failed(&mut self)
        ensures
            *final(self) == (Drain { lost: bumped(old(self).lost), ..*old(self) }),
    {
        if self.lost < u64::MAX {
            self.lost = self.lost + 1;
        }
    }

    /// Takes note that the stream has reached its end.
    pub fn on_end(&mut self)
        ensures
            *final(self) == (Drain { ended: true, ..*old(self) }),
    {
        self.ended = true;
    }
}

/// Whether both streams of a child have been read to their end.
pub fn drained(stdout: &Drain, stderr: &Drain) -> (res: bool)
    ensures
        res == (stdout.ended && stderr.ended),
{
    stdout.ended && stderr.ended
}

/// One line of the child's output.
#[derive(Clone, Debug, PartialEq, Eq)]
pub struct LogRecord {
    pub origin: StreamOrigin,
    pub line: String,
}

/// The lines read so far, in the order read.
pub struct LogStream {
    records: Vec<LogRecord>,
}

/// The first `n` of `records` as they stand in the log file.
pub open spec fn transcript_prefix(records: Seq<(StreamOrigin, Seq<char>)>, n: nat) -> Seq<char>
    decreases n,
{
    if n == 0 {
        Seq::empty()
    } else {
        transcript_prefix(records, (n - 1) as nat) + entry_of(records[n - 1].0, records[n - 1].1)
    }
}

/// `records` as they stand in the log file: the entry of each, in order.
pub open spec fn transcript_of(records: Seq<(StreamOrigin, Seq<char>)>) -> Seq<char> {
    transcript_prefix(records, records.len())
}

impl View for LogStream {
    type V = Seq<(StreamOrigin, Seq<char>)>;

    closed spec fn view(&self) -> Seq<(StreamOrigin, Seq<char>)> {
        Seq::new(self.records@.len(), |i: int| (self.records@[i].origin, self.records@[i].line@))
    }
}

impl LogStream {
    /// A log without lines.
    pub fn new() -> (res: Self)
        ensures
            res@ == Seq::<(StreamOrigin, Seq<char>)>::empty(),
    {
        let res = LogStream { records: Vec::new() };
        res
    }

    /// The number of lines read so far.
    pub fn len(&self) -> (res: usize)
        ensures
            res == self@.len(),
    {
        self.records.len()
    }

    /// Adds `line`, read from `origin`, behind the lines read before.
    pub fn append(&mut self, origin: StreamOrigin, line: String)
        ensures
            final(self)@ == old(self)@.push((origin, line@)),
    {
        self.records.push(LogRecord { origin, line });
    }

    /// The log file's content: the entry of each line, in the order read.
    pub fn transcript(&self) -> (res: String)
        ensures
            res@ == transcript_of(self@),
    {
        let mut res = String::new();
        let mut i: usize = 0;
        while i < self.records.len()
            invariant
                i <= self.records.len(),
                res@ == transcript_prefix(self@, i as nat),
            decreases self.records.len() - i,
        {
            let entry = log_entry(self.records[i].origin, self.records[i].line.as_str());
            res.append(entry.as_str());
            i = i + 1;
        }
        res
    }
}

/// The directory of the log files: `logs` in the data directory.
pub open spec fn log_dir_of(locator: &Locator) -> Seq<char> {
    joined(locator.platform, locator.data_dir@, "logs"@)
}

/// The log file of the backend's output.
pub open spec fn log_file_of(locator: &Locator) -> Seq<char> {
    joined(locator.platform, log_dir_of(locator), "backend_startup.log"@)
}

/// The directory of the log files. It is made when the first log is
/// written.
pub fn log_dir(locator: &Locator) -> (res: String)
    ensures
        res@ == log_dir_of(locator),
{
    join(locator.platform, locator.data_dir.as_str(), "logs")
}

/// The log file of the backend's output.
pub fn log_file(locator: &Locator) -> (res: String)
    ensures
        res@ == log_file_of(locator),
{
    let dir = log_dir(locator);
    join(locator.platform, dir.as_str(), "backend_startup.log")
}

/// The account of a start that failed, as it is written to the log file.
pub open spec fn failure_report_of(
    timestamp: Seq<char>,
    runtime: Seq<char>,
    working_dir: Seq<char>,
    script: Seq<char>,
    reason: Seq<char>,
) -> Seq<char> {
    "Backend startup failed at "@ + timestamp + "\nNode path: "@ + runtime + "\nWorking dir: "@
        + working_dir + "\nServer.js: "@ + script + "\nError: "@ + reason + "\n"@
}

/// The account of a start that failed, as it is written to the log file.
pub fn failure_report(
    timestamp: &str,
    runtime: &str,
    working_dir: &str,
    script: &str,
    reason: &str,
) -> (res: String)
    ensures
        res@ == failure_report_of(timestamp@, runtime@, working_dir@, script@, reason@),
{
    let mut res = String::from_str("Backend startup failed at ");
    res.append(timestamp);
    res.append("\nNode path: ");
    res.append(runtime);
    res.append("\nWorking dir: ");
    res.append(working_dir);
    res.append("\nServer.js: ");
    res.append(script);
    res.append("\nError: ");
    res.append(reason);
    res.append("\n");
    res
}

/// The account of a start that failed at the moment `nanos` nanoseconds
/// behind the `secs`-th second since the beginning of 1970, as it is
/// written to the log file; nothing for a moment that cannot be written as
/// a date.
pub open spec fn failure_report_at_of(
    stamp: Option<Seq<char>>,
    runtime: Seq<char>,
    working_dir: Seq<char>,
    script: Seq<char>,
    reason: Seq<char>,
) -> Option<Seq<char>> {
    match stamp {
        Some(timestamp) => Some(failure_report_of(timestamp, runtime, working_dir, script, reason)),
        None => None,
    }
}

/// The account of a start that failed at the moment `nanos` nanoseconds
/// behind the `secs`-th second since the beginning of 1970.
pub fn failure_report_at(
    secs: i64,
    nanos: u32,
    runtime: &str,
    working_dir: &str,
    script: &str,
    reason: &str,
) -> (res: Option<String>)
    ensures
        option_text(res) == failure_report_at_of(
            rfc3339_text(secs, nanos),
            runtime@,
            working_dir@,
            script@,
            reason@,
        ),
{
    match rfc3339_at(secs, nanos) {
        Some(timestamp) => Some(
            failure_report(timestamp.as_str(), runtime, working_dir, script, reason),
        ),
        None => None,
    }
}

} // verus!
