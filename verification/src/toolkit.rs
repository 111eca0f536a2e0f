//! What every tool shares: the execution context and a timer.

use crate::clock::{elapsed_millis, instant_now, unix_seconds};
use crate::text::{chars_of, decimal, decimal_text_u64, equals, slice, text_of};
use crate::value::{lemma_view_members, view_members, DynamicValue, JsonValue};
use vstd::prelude::*;

verus! {

/// The context in which a tool runs.
#[derive(Debug, Clone)]
pub struct Context {
    pub trace_id: String,
    pub dry_run: bool,
    pub timeout_seconds: Option<u64>,
}

impl Context {
    /// The default context for a run whose identifier is drawn from
    /// `source`: the first eight characters trace the run, nothing is
    /// dry, and the timeout is 300 seconds.
    pub fn traced_by(source: &str) -> (r: Self)
        requires
            source@.len() >= 8,
        ensures
            r.trace_id@ == source@.take(8),
            !r.dry_run,
            r.timeout_seconds == Some(300u64),
    {
        let chars = chars_of(source);
        let head = slice(&chars, 0, 8);
        Context { trace_id: text_of(&head), dry_run: false, timeout_seconds: Some(300) }
    }
}

/// Measures how long a tool has run.
pub struct Timer {
    start: std::time::Instant,
}

impl Timer {
    /// A timer that starts now.
    pub fn start() -> Self {
        Timer { start: instant_now() }
    }

    /// The whole milliseconds since the timer started.
    pub fn elapsed_ms(&self) -> i64 {
        elapsed_millis(&self.start)
    }
}

/// A time stamp: the seconds as a decimal numeral, `0` without a
/// reading.
pub open spec fn stamp_of(seconds: Option<u64>) -> Seq<char> {
    match seconds {
        Some(s) => decimal(s as nat),
        None => "0"@,
    }
}

/// The time stamp for a reading of the clock.
pub fn timestamp_text(seconds: Option<u64>) -> (r: String)
    ensures
        r@ == stamp_of(seconds),
{
    match seconds {
        Some(s) => decimal_text_u64(s),
        None => String::from_str("0"),
    }
}

/// The time stamp of the present moment: the seconds since the epoch.
pub fn chrono_lite_now() -> (r: String)
    ensures
        exists|seconds: Option<u64>| r@ == stamp_of(seconds),
{
    let seconds = unix_seconds();
    timestamp_text(seconds)
}

/// A text with a backslash before each double quote.
pub open spec fn quote_escaped(s: Seq<char>) -> Seq<char>
    decreases s.len(),
{
    if s.len() == 0 {
        Seq::empty()
    } else if s.last() == '"' {
        quote_escaped(s.drop_last()) + "\\\""@
    } else {
        quote_escaped(s.drop_last()).push(s.last())
    }
}

/// The line that reports an error: a JSON object with the level, the
/// message, the error and the time stamp.
pub open spec fn error_line_text(msg: Seq<char>, err: Seq<char>, ts: Seq<char>) -> Seq<char> {
    "{\"level\":\"error\",\"msg\":\""@ + quote_escaped(msg) + "\",\"error\":\""@ + quote_escaped(
        err,
    ) + "\",\"ts\":\""@ + ts + "\"}"@
}

fn escape_quotes(text: &str) -> (r: String)
    ensures
        r@ == quote_escaped(text@),
{
    let v = chars_of(text);
    let mut out = String::new();
    let mut i: usize = 0;
    while i < v.len()
        invariant
            i <= v.len(),
            out@ == quote_escaped(v@.take(i as int)),
        decreases v.len() - i,
    {
        assert(v@.take(i as int + 1).drop_last() == v@.take(i as int));
        if v[i] == '"' {
            out.append("\\\"");
        } else {
            out.push(v[i]);
        }
        i += 1;
    }
    assert(v@.take(v.len() as int) == v@);
    out
}

/// The line that reports an error at the given time.
pub fn error_line(msg: &str, err: &str, ts: &str) -> (r: String)
    ensures
        r@ == error_line_text(msg@, err@, ts@),
{
    let msg_text = escape_quotes(msg);
    let err_text = escape_quotes(err);
    let mut out = String::from_str("{\"level\":\"error\",\"msg\":\"");
    out.append(msg_text.as_str());
    out.append("\",\"error\":\"");
    out.append(err_text.as_str());
    out.append("\",\"ts\":\"");
    out.append(ts);
    out.append("\"}");
    out
}

/// A structured log line of a tool: a level, a message, the trace
/// identifier, and further members in the order in which they were set.
#[derive(Debug)]
pub struct LogEntry {
    pub level: String,
    pub msg: String,
    pub trace_id: String,
    pub extra: Vec<(String, DynamicValue)>,
}

/// The first position at or after `from` whose member has the key.
pub open spec fn member_position(
    members: Seq<(Seq<char>, JsonValue)>,
    key: Seq<char>,
    from: int,
) -> Option<int>
    decreases members.len() - from,
{
    if from < 0 || from >= members.len() {
        None
    } else if members[from].0 == key {
        Some(from)
    } else {
        member_position(members, key, from + 1)
    }
}

/// The members after `key` was set to `value`: a member with that key
/// keeps its place and takes the value; else the member is added at the
/// end.
pub open spec fn with_member(
    members: Seq<(Seq<char>, JsonValue)>,
    key: Seq<char>,
    value: JsonValue,
) -> Seq<(Seq<char>, JsonValue)> {
    match member_position(members, key, 0) {
        Some(i) => members.update(i, (key, value)),
        None => members.push((key, value)),
    }
}

fn find_member(members: &Vec<(String, DynamicValue)>, key: &str) -> (r: Option<usize>)
    ensures
        match r {
            Some(i) => member_position(view_members(members@), key@, 0) == Some(i as int) && i
                < members.len(),
            None => member_position(view_members(members@), key@, 0) is None,
        },
{
    proof {
        lemma_view_members(members@);
    }
    let mut i: usize = 0;
    while i < members.len()
        invariant
            i <= members.len(),
            view_members(members@).len() == members.len(),
            forall|j: int|
                0 <= j < members.len() ==> (#[trigger] view_members(members@)[j]) == (
                    members@[j].0@,
                    members@[j].1@,
                ),
            member_position(view_members(members@), key@, 0) == member_position(
                view_members(members@),
                key@,
                i as int,
            ),
        decreases members.len() - i,
    {
        let name = chars_of(members[i].0.as_str());
        if equals(&name, key) {
            return Some(i);
        }
        i += 1;
    }
    None
}

impl LogEntry {
    fn at_level(level: &str, msg: &str, trace_id: String) -> (r: Self)
        ensures
            r.level@ == level@,
            r.msg@ == msg@,
            r.trace_id == trace_id,
            r.extra@.len() == 0,
    {
        LogEntry {
            level: String::from_str(level),
            msg: String::from_str(msg),
            trace_id,
            extra: Vec::new(),
        }
    }

    /// A line at level `info`, without further members.
    pub fn info(msg: &str, trace_id: String) -> (r: Self)
        ensures
            r.level@ == "info"@,
            r.msg@ == msg@,
            r.trace_id == trace_id,
            r.extra@.len() == 0,
    {
        Self::at_level("info", msg, trace_id)
    }

    /// A line at level `error`, without further members.
    pub fn error(msg: &str, trace_id: String) -> (r: Self)
        ensures
            r.level@ == "error"@,
            r.msg@ == msg@,
            r.trace_id == trace_id,
            r.extra@.len() == 0,
    {
        Self::at_level("error", msg, trace_id)
    }

    /// A line at level `debug`, without further members.
    pub fn debug(msg: &str, trace_id: String) -> (r: Self)
        ensures
            r.level@ == "debug"@,
            r.msg@ == msg@,
            r.trace_id == trace_id,
            r.extra@.len() == 0,
    {
        Self::at_level("debug", msg, trace_id)
    }

    /// The line with the member `key` set to `value`.
    pub fn with_extra(self, key: &str, value: DynamicValue) -> (r: Self)
        ensures
            r.level == self.level,
            r.msg == self.msg,
            r.trace_id == self.trace_id,
            view_members(r.extra@) == with_member(view_members(self.extra@), key@, value@),
    {
        let mut entry = self;
        let ghost before = entry.extra@;
        let member = (String::from_str(key), value);
        proof {
            lemma_view_members(before);
        }
        match find_member(&entry.extra, key) {
            Some(i) => {
                entry.extra.set(i, member);
                proof {
                    lemma_view_members(entry.extra@);
                }
            },
            None => {
                entry.extra.push(member);
                proof {
                    lemma_view_members(entry.extra@);
                }
            },
        }
        entry
    }
}

} // verus!
