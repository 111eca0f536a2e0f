//! The closed set of severities and the total mapping from free-text levels.

use crate::casing::uppercase;
use crate::text::{chars_of, equals};
use vstd::prelude::*;

verus! {

/// How urgent a log entry is.
#[derive(Clone, Copy, Debug, PartialEq, Eq, Structural)]
pub enum Severity {
    Trace,
    Debug,
    Info,
    Warning,
    Error,
    Fatal,
}

/// The severity that an upper-cased level names; `Info` for every other
/// text, the empty one included.
pub open spec fn severity_of(upper: Seq<char>) -> Severity {
    if upper == "TRACE"@ {
        Severity::Trace
    } else if upper == "DEBUG"@ {
        Severity::Debug
    } else if upper == "INFO"@ {
        Severity::Info
    } else if upper == "WARN"@ || upper == "WARNING"@ {
        Severity::Warning
    } else if upper == "ERROR"@ {
        Severity::Error
    } else if upper == "FATAL"@ || upper == "CRITICAL"@ {
        Severity::Fatal
    } else {
        Severity::Info
    }
}

impl Severity {
    /// The lower-case name that stands in the `severity` attribute.
    pub open spec fn label(self) -> Seq<char> {
        match self {
            Severity::Trace => "trace"@,
            Severity::Debug => "debug"@,
            Severity::Info => "info"@,
            Severity::Warning => "warning"@,
            Severity::Error => "error"@,
            Severity::Fatal => "fatal"@,
        }
    }

    /// `Error` and `Fatal` are the severities that carry an action hint
    /// and count as errors.
    pub open spec fn is_failure(self) -> bool {
        self == Severity::Error || self == Severity::Fatal
    }

    pub fn as_str(&self) -> (r: &'static str)
        ensures
            r@ == self.label(),
    {
        match self {
            Severity::Trace => "trace",
            Severity::Debug => "debug",
            Severity::Info => "info",
            Severity::Warning => "warning",
            Severity::Error => "error",
            Severity::Fatal => "fatal",
        }
    }

    pub fn failure(&self) -> (b: bool)
        ensures
            b == self.is_failure(),
    {
        match self {
            Severity::Error => true,
            Severity::Fatal => true,
            _ => false,
        }
    }
}

/// Maps an already upper-cased level to its severity.
pub fn severity_from_upper(upper: &str) -> (r: Severity)
    ensures
        r == severity_of(upper@),
{
    let u = chars_of(upper);
    if equals(&u, "TRACE") {
        Severity::Trace
    } else if equals(&u, "DEBUG") {
        Severity::Debug
    } else if equals(&u, "INFO") {
        Severity::Info
    } else if equals(&u, "WARN") || equals(&u, "WARNING") {
        Severity::Warning
    } else if equals(&u, "ERROR") {
        Severity::Error
    } else if equals(&u, "FATAL") || equals(&u, "CRITICAL") {
        Severity::Fatal
    } else {
        Severity::Info
    }
}

/// Classifies a free-text level without regard to case. Total: every
/// text, recognised or not, has a severity.
pub fn classify_severity(level: &str) -> (r: Severity)
    ensures
        r == severity_of(uppercase(level@)),
{
    let upper = level.to_uppercase();
    severity_from_upper(upper.as_str())
}

} // verus!
