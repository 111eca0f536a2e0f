//! The document around a stream of rendered log entries: a header that
//! carries the session's metadata, and a footer that carries the outcome
//! and the counters that the caller kept.

use crate::log_entry::{rendered_log, text_or, LogEntry, LogEntryView};
use crate::casing::uppercase;
use crate::clock::{stamp_text, utc_now_rfc3339, ClockReading};
use crate::severity::{classify_severity, severity_of, Severity};
use crate::text::{decimal, decimal_text};
use crate::xml::{escape, escape_xml};
use vstd::prelude::*;

verus! {

/// The metadata of one streaming session.
pub struct XmlStream {
    execution_id: String,
    namespace: String,
    flow_id: String,
    start_time: String,
}

/// The session's metadata as plain texts.
pub ghost struct XmlStreamView {
    pub execution_id: Seq<char>,
    pub namespace: Seq<char>,
    pub flow_id: Seq<char>,
    pub start_time: Seq<char>,
}

impl View for XmlStream {
    type V = XmlStreamView;

    closed spec fn view(&self) -> XmlStreamView {
        XmlStreamView {
            execution_id: self.execution_id@,
            namespace: self.namespace@,
            flow_id: self.flow_id@,
            start_time: self.start_time@,
        }
    }
}

/// The opening of the document: the root element, the session's metadata
/// as escaped text, the schema token, and the open `<logs>` container.
pub open spec fn header_xml(s: XmlStreamView) -> Seq<char> {
    "<kestra_stream version=\"1.0\">\n  <stream_meta>\n    <execution_id>"@ + escape(
        s.execution_id,
    ) + "</execution_id>\n    <namespace>"@ + escape(s.namespace)
        + "</namespace>\n    <flow_id>"@ + escape(s.flow_id)
        + "</flow_id>\n    <stream_started>"@ + escape(s.start_time)
        + "</stream_started>\n    <schema>kestra-ws-xml-v1</schema>\n  </stream_meta>\n  <logs>\n"@
}

/// The closing of the document: the end of `<logs>`, and a summary with
/// the final state and the task summary as escaped text, the two counts
/// as decimal numerals, and the end time as given.
pub open spec fn footer_xml(
    final_state: Seq<char>,
    task_summary: Seq<char>,
    error_count: nat,
    warning_count: nat,
    end_time: Seq<char>,
) -> Seq<char> {
    "  </logs>\n  <summary>\n    <final_state>"@ + escape(final_state)
        + "</final_state>\n    <task_summary>"@ + escape(task_summary)
        + "</task_summary>\n    <error_count>"@ + decimal(error_count)
        + "</error_count>\n    <warning_count>"@ + decimal(warning_count)
        + "</warning_count>\n    <stream_ended>"@ + end_time
        + "</stream_ended>\n  </summary>\n</kestra_stream>\n"@
}

impl XmlStream {
    /// A session that started at `start_time`.
    pub fn started_at(execution_id: &str, namespace: &str, flow_id: &str, start_time: &str) -> (r:
        Self)
        ensures
            r@ == (XmlStreamView {
                execution_id: execution_id@,
                namespace: namespace@,
                flow_id: flow_id@,
                start_time: start_time@,
            }),
    {
        XmlStream {
            execution_id: String::from_str(execution_id),
            namespace: String::from_str(namespace),
            flow_id: String::from_str(flow_id),
            start_time: String::from_str(start_time),
        }
    }

    /// A session that starts now, by the system clock.
    pub fn new(execution_id: &str, namespace: &str, flow_id: &str) -> (r: Self)
        ensures
            r@.execution_id == execution_id@,
            r@.namespace == namespace@,
            r@.flow_id == flow_id@,
            exists|reading: Option<ClockReading>| r@.start_time == stamp_text(reading),
    {
        let now = utc_now_rfc3339();
        Self::started_at(execution_id, namespace, flow_id, now.as_str())
    }

    /// The opening of the document.
    pub fn header(&self) -> (r: String)
        ensures
            r@ == header_xml(self@),
    {
        let execution_id = escape_xml(self.execution_id.as_str());
        let namespace = escape_xml(self.namespace.as_str());
        let flow_id = escape_xml(self.flow_id.as_str());
        let start_time = escape_xml(self.start_time.as_str());
        let mut out = String::from_str(
            "<kestra_stream version=\"1.0\">\n  <stream_meta>\n    <execution_id>",
        );
        out.append(execution_id.as_str());
        out.append("</execution_id>\n    <namespace>");
        out.append(namespace.as_str());
        out.append("</namespace>\n    <flow_id>");
        out.append(flow_id.as_str());
        out.append("</flow_id>\n    <stream_started>");
        out.append(start_time.as_str());
        out.append(
            "</stream_started>\n    <schema>kestra-ws-xml-v1</schema>\n  </stream_meta>\n  <logs>\n",
        );
        out
    }

    /// The closing of the document for a stream that ended at `end_time`.
    pub fn footer_at(
        &self,
        final_state: &str,
        task_summary: &str,
        error_count: usize,
        warning_count: usize,
        end_time: &str,
    ) -> (r: String)
        ensures
            r@ == footer_xml(
                final_state@,
                task_summary@,
                error_count as nat,
                warning_count as nat,
                end_time@,
            ),
    {
        let state = escape_xml(final_state);
        let summary = escape_xml(task_summary);
        let errors = decimal_text(error_count);
        let warnings = decimal_text(warning_count);
        let mut out = String::from_str("  </logs>\n  <summary>\n    <final_state>");
        out.append(state.as_str());
        out.append("</final_state>\n    <task_summary>");
        out.append(summary.as_str());
        out.append("</task_summary>\n    <error_count>");
        out.append(errors.as_str());
        out.append("</error_count>\n    <warning_count>");
        out.append(warnings.as_str());
        out.append("</warning_count>\n    <stream_ended>");
        out.append(end_time);
        out.append("</stream_ended>\n  </summary>\n</kestra_stream>\n");
        out
    }

    /// The closing of the document for a stream that ends now, by the
    /// system clock. The counts are serialised as they are handed in.
    pub fn footer(
        &self,
        final_state: &str,
        task_summary: &str,
        error_count: usize,
        warning_count: usize,
    ) -> (r: String)
        ensures
            exists|reading: Option<ClockReading>|
                r@ == footer_xml(
                    final_state@,
                    task_summary@,
                    error_count as nat,
                    warning_count as nat,
                    stamp_text(reading),
                ),
    {
        let now = utc_now_rfc3339();
        self.footer_at(final_state, task_summary, error_count, warning_count, now.as_str())
    }
}

/// The counters of one streaming session. The loop that drives the
/// stream owns them and hands them to the footer.
#[derive(Debug, Clone, Copy, PartialEq, Eq)]
pub struct StreamSession {
    pub error_count: usize,
    pub warning_count: usize,
}

/// The counters after an entry of the given severity: `Error` and
/// `Fatal` count as errors, `Warning` as a warning.
pub open spec fn tallied(counts: (nat, nat), severity: Severity) -> (nat, nat) {
    if severity.is_failure() {
        (counts.0 + 1, counts.1)
    } else if severity == Severity::Warning {
        (counts.0, counts.1 + 1)
    } else {
        counts
    }
}

/// The severity of a record: that of its level, `INFO` where absent.
pub open spec fn severity_of_entry(e: LogEntryView) -> Severity {
    severity_of(uppercase(text_or(e.level, "INFO"@)))
}

impl StreamSession {
    pub open spec fn counts(self) -> (nat, nat) {
        (self.error_count as nat, self.warning_count as nat)
    }

    /// A session that has seen nothing.
    pub fn new() -> (r: Self)
        ensures
            r.counts() == (0nat, 0nat),
    {
        StreamSession { error_count: 0, warning_count: 0 }
    }

    /// Counts one entry of the given severity.
    pub fn tally(&mut self, severity: Severity)
        requires
            old(self).error_count < usize::MAX,
            old(self).warning_count < usize::MAX,
        ensures
            final(self).counts() == tallied(old(self).counts(), severity),
    {
        if severity.failure() {
            self.error_count = self.error_count + 1;
        } else {
            match severity {
                Severity::Warning => {
                    self.warning_count = self.warning_count + 1;
                },
                _ => {},
            }
        }
    }

    /// Counts one entry and renders it.
    pub fn render(&mut self, entry: &LogEntry) -> (r: String)
        requires
            old(self).error_count < usize::MAX,
            old(self).warning_count < usize::MAX,
        ensures
            final(self).counts() == tallied(old(self).counts(), severity_of_entry(entry@)),
            r@ == rendered_log(entry@),
    {
        let severity = match &entry.level {
            Some(level) => classify_severity(level.as_str()),
            None => classify_severity("INFO"),
        };
        self.tally(severity);
        entry.format_xml()
    }

    /// The closing of the document with this session's counters.
    pub fn footer_at(
        &self,
        stream: &XmlStream,
        final_state: &str,
        task_summary: &str,
        end_time: &str,
    ) -> (r: String)
        ensures
            r@ == footer_xml(
                final_state@,
                task_summary@,
                self.counts().0,
                self.counts().1,
                end_time@,
            ),
    {
        stream.footer_at(final_state, task_summary, self.error_count, self.warning_count, end_time)
    }
}

} // verus!
