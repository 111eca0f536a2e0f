//! One log record and its renderings: a one-line form for people, and a
//! `<log>` element that carries the severity, the metadata, a structured
//! reading of the message where it holds JSON, the raw message, and a
//! hint for failures.

use crate::casing::{lowercase, uppercase};
use crate::hint::{extract_error_hint, hint_for};
use crate::json::{json_of, parse_json};
use crate::severity::{classify_severity, severity_of, Severity};
use crate::text::{
    chars_of, find_char, first_char, last_char, rfind_char, slice, text_of, trim,
    trim_bounds,
};
use crate::value::{indentation, json_to_xml, render, DynamicValue};
use crate::xml::{escape, escape_xml, push_escaped};
use vstd::prelude::*;

verus! {

/// A log record as it arrives from the wire. Every field may be absent.
#[derive(Debug, Clone, PartialEq, Eq)]
pub struct LogEntry {
    pub execution_id: Option<String>,
    pub namespace: Option<String>,
    pub flow_id: Option<String>,
    pub task_id: Option<String>,
    pub message: Option<String>,
    pub level: Option<String>,
    pub timestamp: Option<String>,
}

/// The record as plain texts.
pub ghost struct LogEntryView {
    pub execution_id: Option<Seq<char>>,
    pub namespace: Option<Seq<char>>,
    pub flow_id: Option<Seq<char>>,
    pub task_id: Option<Seq<char>>,
    pub message: Option<Seq<char>>,
    pub level: Option<Seq<char>>,
    pub timestamp: Option<Seq<char>>,
}

/// The text of an optional field.
pub open spec fn field_view(field: Option<String>) -> Option<Seq<char>> {
    match field {
        Some(s) => Some(s@),
        None => None,
    }
}

/// The text of an optional borrowed text.
pub open spec fn borrowed_view(field: Option<&str>) -> Option<Seq<char>> {
    match field {
        Some(s) => Some(s@),
        None => None,
    }
}

/// The field's text, or `default` where it is absent.
pub open spec fn text_or(field: Option<Seq<char>>, default: Seq<char>) -> Seq<char> {
    match field {
        Some(s) => s,
        None => default,
    }
}

impl View for LogEntry {
    type V = LogEntryView;

    open spec fn view(&self) -> LogEntryView {
        LogEntryView {
            execution_id: field_view(self.execution_id),
            namespace: field_view(self.namespace),
            flow_id: field_view(self.flow_id),
            task_id: field_view(self.task_id),
            message: field_view(self.message),
            level: field_view(self.level),
            timestamp: field_view(self.timestamp),
        }
    }
}

/// `level | task | message`, with `INFO`, `-` and the empty text for what
/// is absent.
pub open spec fn pretty_line(e: LogEntryView) -> Seq<char> {
    text_or(e.level, "INFO"@) + " | "@ + text_or(e.task_id, "-"@) + " | "@ + text_or(
        e.message,
        ""@,
    )
}

/// The span from the first `{` to the last `}` of a message, both
/// included, where the second lies behind the first.
pub open spec fn embedded_span(msg: Seq<char>) -> Option<(int, int)> {
    match (first_char(msg, '{', 0), last_char(msg, '}', msg.len() as int)) {
        (Some(open), Some(close)) => if close > open {
            Some((open, close))
        } else {
            None
        },
        _ => None,
    }
}

/// The `<prefix>` element for what stands before embedded JSON; nothing
/// where that is only whitespace.
pub open spec fn prefix_element(before: Seq<char>) -> Seq<char> {
    if trim(before).len() == 0 {
        Seq::empty()
    } else {
        "    <prefix>"@ + escape(trim(before)) + "</prefix>\n"@
    }
}

/// The structured reading of a message: the whole message as JSON, or
/// else the span from its first `{` to its last `}`, with what stands
/// before it as a prefix. What follows the last `}` is dropped.
pub open spec fn recovered(msg: Seq<char>) -> Option<Seq<char>> {
    match json_of(msg) {
        Some(v) => Some(render(v, indentation(2))),
        None => match embedded_span(msg) {
            Some((open, close)) => match json_of(msg.subrange(open, close + 1)) {
                Some(v) => Some(prefix_element(msg.take(open)) + render(v, indentation(2))),
                None => None,
            },
            None => None,
        },
    }
}

/// One line of the `<meta>` block; nothing for an absent field.
pub open spec fn meta_line(tag: Seq<char>, field: Option<Seq<char>>) -> Seq<char> {
    match field {
        Some(v) => "    <"@ + tag + ">"@ + escape(v) + "</"@ + tag + ">\n"@,
        None => Seq::empty(),
    }
}

/// The `<meta>` block: one line for each field that is present.
pub open spec fn meta_block(e: LogEntryView) -> Seq<char> {
    "  <meta>\n"@ + meta_line("execution_id"@, e.execution_id) + meta_line(
        "namespace"@,
        e.namespace,
    ) + meta_line("flow_id"@, e.flow_id) + meta_line("task_id"@, e.task_id) + meta_line(
        "level"@,
        e.level,
    ) + meta_line("timestamp"@, e.timestamp) + "  </meta>\n"@
}

/// The `<structured_message>` element; nothing without a structured
/// reading.
pub open spec fn structured_block(structured: Option<Seq<char>>) -> Seq<char> {
    match structured {
        Some(x) => "  <structured_message>\n"@ + x + "  </structured_message>\n"@,
        None => Seq::empty(),
    }
}

/// The `<action_hint>` element: only for `Error` and `Fatal`, and only
/// where there is a hint.
pub open spec fn hint_block(severity: Severity, hint: Option<Seq<char>>) -> Seq<char> {
    match hint {
        Some(h) => if severity.is_failure() {
            "  <action_hint>"@ + escape(h) + "</action_hint>\n"@
        } else {
            Seq::empty()
        },
        None => Seq::empty(),
    }
}

/// The opening of the `<log>` element.
pub open spec fn log_opening(severity: Severity) -> Seq<char> {
    "<log severity=\""@ + severity.label() + "\">\n"@
}

/// The `<message>` element: the raw message, unescaped, inside CDATA.
pub open spec fn message_block(message: Option<Seq<char>>) -> Seq<char> {
    "  <message><![CDATA["@ + text_or(message, ""@) + "]]></message>\n"@
}

/// The `<log>` element for a record, given its severity, the structured
/// reading of its message and the hint for it.
pub open spec fn log_xml(
    e: LogEntryView,
    severity: Severity,
    structured: Option<Seq<char>>,
    hint: Option<Seq<char>>,
) -> Seq<char> {
    log_opening(severity) + meta_block(e) + structured_block(structured) + message_block(
        e.message,
    ) + hint_block(severity, hint) + "</log>"@
}

/// The `<log>` element for a record: the severity classified from its
/// level (`INFO` where absent), the structured reading recovered from its
/// message, the hint advised for its message.
pub open spec fn rendered_log(e: LogEntryView) -> Seq<char> {
    let msg = text_or(e.message, ""@);
    log_xml(
        e,
        severity_of(uppercase(text_or(e.level, "INFO"@))),
        recovered(msg),
        hint_for(lowercase(msg)),
    )
}

/// The field's text, or `default` where it is absent.
fn text_or_default<'a>(field: &'a Option<String>, default: &'a str) -> (r: &'a str)
    ensures
        r@ == text_or(field_view(*field), default@),
{
    match field {
        Some(s) => s.as_str(),
        None => default,
    }
}

/// One line of the `<meta>` block.
fn meta_line_text(tag: &str, field: &Option<String>) -> (r: String)
    ensures
        r@ == meta_line(tag@, field_view(*field)),
{
    match field {
        Some(v) => {
            let escaped = escape_xml(v.as_str());
            let mut out = String::from_str("    <");
            out.append(tag);
            out.append(">");
            out.append(escaped.as_str());
            out.append("</");
            out.append(tag);
            out.append(">\n");
            out
        },
        None => String::new(),
    }
}

/// The `<meta>` block.
fn meta_block_text(entry: &LogEntry) -> (r: String)
    ensures
        r@ == meta_block(entry@),
{
    let execution_id = meta_line_text("execution_id", &entry.execution_id);
    let namespace = meta_line_text("namespace", &entry.namespace);
    let flow_id = meta_line_text("flow_id", &entry.flow_id);
    let task_id = meta_line_text("task_id", &entry.task_id);
    let level = meta_line_text("level", &entry.level);
    let timestamp = meta_line_text("timestamp", &entry.timestamp);
    let mut out = String::from_str("  <meta>\n");
    out.append(execution_id.as_str());
    out.append(namespace.as_str());
    out.append(flow_id.as_str());
    out.append(task_id.as_str());
    out.append(level.as_str());
    out.append(timestamp.as_str());
    out.append("  </meta>\n");
    out
}

/// The `<structured_message>` element.
fn structured_block_text(structured: Option<&str>) -> (r: String)
    ensures
        r@ == structured_block(borrowed_view(structured)),
{
    match structured {
        Some(x) => {
            let mut out = String::from_str("  <structured_message>\n");
            out.append(x);
            out.append("  </structured_message>\n");
            out
        },
        None => String::new(),
    }
}

/// The `<action_hint>` element.
fn hint_block_text(severity: Severity, hint: Option<&str>) -> (r: String)
    ensures
        r@ == hint_block(severity, borrowed_view(hint)),
{
    match hint {
        Some(h) => {
            if severity.failure() {
                let escaped = escape_xml(h);
                let mut out = String::from_str("  <action_hint>");
                out.append(escaped.as_str());
                out.append("</action_hint>\n");
                out
            } else {
                String::new()
            }
        },
        None => String::new(),
    }
}

/// The `<message>` element.
fn message_block_text(message: &Option<String>) -> (r: String)
    ensures
        r@ == message_block(field_view(*message)),
{
    let mut out = String::from_str("  <message><![CDATA[");
    out.append(text_or_default(message, ""));
    out.append("]]></message>\n");
    out
}

/// The structured reading of a message whose JSON part parsed to
/// `value`, with `before` standing in front of that part.
pub fn structured_fragment(before: &str, value: &DynamicValue) -> (r: String)
    ensures
        r@ == prefix_element(before@) + render(value@, indentation(2)),
{
    let chars = chars_of(before);
    let (lo, hi) = trim_bounds(&chars, 0, chars.len());
    assert(chars@.subrange(0, chars.len() as int) == chars@);
    let mut out = String::new();
    if lo < hi {
        let kept = slice(&chars, lo, hi);
        out.append("    <prefix>");
        push_escaped(&mut out, &kept);
        out.append("</prefix>\n");
    }
    let body = json_to_xml(value, 2);
    out.append(body.as_str());
    out
}

/// Reads a message as structured data: the whole message as JSON, or else
/// the JSON that stands between its first `{` and its last `}`. `None`
/// where neither parses.
pub fn try_parse_structured_message(msg: &str) -> (r: Option<String>)
    ensures
        match r {
            Some(x) => recovered(msg@) == Some(x@),
            None => recovered(msg@) is None,
        },
{
    match parse_json(msg) {
        Some(v) => {
            return Some(json_to_xml(&v, 2));
        },
        None => {},
    }
    let chars = chars_of(msg);
    let open = match find_char(&chars, '{', 0) {
        Some(i) => i,
        None => {
            return None;
        },
    };
    let close = match rfind_char(&chars, '}', chars.len()) {
        Some(i) => i,
        None => {
            return None;
        },
    };
    if close <= open {
        return None;
    }
    proof {
        crate::text::lemma_first_char(msg@, '{', 0);
        crate::text::lemma_last_char(msg@, '}', msg@.len() as int);
    }
    let part = slice(&chars, open, close + 1);
    let part_text = text_of(&part);
    match parse_json(part_text.as_str()) {
        Some(v) => {
            let before = slice(&chars, 0, open);
            let before_text = text_of(&before);
            Some(structured_fragment(before_text.as_str(), &v))
        },
        None => None,
    }
}

impl LogEntry {
    /// The one-line form: `level | task | message`.
    pub fn format_pretty(&self) -> (r: String)
        ensures
            r@ == pretty_line(self@),
    {
        let mut out = String::from_str(text_or_default(&self.level, "INFO"));
        out.append(" | ");
        out.append(text_or_default(&self.task_id, "-"));
        out.append(" | ");
        out.append(text_or_default(&self.message, ""));
        out
    }

    /// The `<log>` element, assembled from a severity, a structured
    /// reading and a hint that the caller has at hand.
    pub fn format_xml_with(
        &self,
        severity: Severity,
        structured: Option<&str>,
        hint: Option<&str>,
    ) -> (r: String)
        ensures
            r@ == log_xml(self@, severity, borrowed_view(structured), borrowed_view(hint)),
    {
        let meta = meta_block_text(self);
        let structured_part = structured_block_text(structured);
        let message_part = message_block_text(&self.message);
        let hint_part = hint_block_text(severity, hint);
        let mut out = String::from_str("<log severity=\"");
        out.append(severity.as_str());
        out.append("\">\n");
        out.append(meta.as_str());
        out.append(structured_part.as_str());
        out.append(message_part.as_str());
        out.append(hint_part.as_str());
        out.append("</log>");
        out
    }

    /// The `<log>` element for this record. Never fails: an absent level
    /// counts as `INFO`, an absent message as empty, and a message that
    /// holds no JSON is rendered raw only.
    pub fn format_xml(&self) -> (r: String)
        ensures
            r@ == rendered_log(self@),
    {
        let severity = classify_severity(text_or_default(&self.level, "INFO"));
        let msg = text_or_default(&self.message, "");
        let structured = try_parse_structured_message(msg);
        let hint = extract_error_hint(msg);
        let structured_text: Option<&str> = match &structured {
            Some(x) => Some(x.as_str()),
            None => None,
        };
        let hint_text: Option<&str> = match &hint {
            Some(h) => Some(h.as_str()),
            None => None,
        };
        self.format_xml_with(severity, structured_text, hint_text)
    }
}

} // verus!
