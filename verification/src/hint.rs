//! Remediation hints for error messages: an ordered list of substring
//! patterns, of which the first that matches decides.

use crate::casing::lowercase;
use crate::text::{chars_of, contains, contains_vec, occurs_at};
use vstd::prelude::*;

verus! {

pub const HINT_KILLED: &'static str =
    "Process killed (OOM or timeout). Check memory limits or increase timeout.";

pub const HINT_COMMAND_FAILED: &'static str =
    "Command failed. Check the command output for specific error details.";

pub const HINT_UNREACHABLE: &'static str = "Service unreachable. Check if the target service is running.";

pub const HINT_PERMISSION: &'static str = "Permission issue. Check file/resource permissions.";

pub const HINT_NOT_FOUND: &'static str = "Resource not found. Verify paths and dependencies exist.";

pub const HINT_TIMEOUT: &'static str =
    "Operation timed out. Consider increasing timeout or optimizing the operation.";

pub const HINT_GENERATION: &'static str =
    "AI code generation failed. Check opencode logs and API connectivity.";

/// The advisory for a lower-cased message: the patterns are tried in this
/// order, the kill signal before the generic exit code.
pub open spec fn hint_for(lowered: Seq<char>) -> Option<Seq<char>> {
    if contains(lowered, "exit code 137"@) || contains(lowered, "exit 137"@) {
        Some(HINT_KILLED@)
    } else if contains(lowered, "exit code 1"@) || contains(lowered, "exit 1"@) {
        Some(HINT_COMMAND_FAILED@)
    } else if contains(lowered, "connection refused"@) {
        Some(HINT_UNREACHABLE@)
    } else if contains(lowered, "permission denied"@) {
        Some(HINT_PERMISSION@)
    } else if contains(lowered, "not found"@) || contains(lowered, "no such file"@) {
        Some(HINT_NOT_FOUND@)
    } else if contains(lowered, "timeout"@) {
        Some(HINT_TIMEOUT@)
    } else if contains(lowered, "opencode failed"@) {
        Some(HINT_GENERATION@)
    } else {
        None
    }
}

/// A message that names exit code 137 gets the kill advisory, whatever
/// else it holds.
pub proof fn lemma_kill_signal_decides(lowered: Seq<char>)
    requires
        contains(lowered, "exit code 137"@) || contains(lowered, "exit 137"@),
    ensures
        hint_for(lowered) == Some(HINT_KILLED@),
{
}

/// The two exit-code patterns overlap: what names exit code 137 also
/// matches the generic pattern, so the order of the list decides.
pub proof fn lemma_exit_patterns_overlap(lowered: Seq<char>)
    ensures
        contains(lowered, "exit code 137"@) ==> contains(lowered, "exit code 1"@),
        contains(lowered, "exit 137"@) ==> contains(lowered, "exit 1"@),
{
    reveal_strlit("exit code 137");
    reveal_strlit("exit code 1");
    reveal_strlit("exit 137");
    reveal_strlit("exit 1");
    if contains(lowered, "exit code 137"@) {
        let i = choose|i: int| occurs_at(lowered, "exit code 137"@, i);
        assert(lowered.subrange(i, i + 11) =~= lowered.subrange(i, i + 13).subrange(0, 11));
        assert("exit code 137"@.subrange(0, 11) =~= "exit code 1"@);
        assert(occurs_at(lowered, "exit code 1"@, i));
    }
    if contains(lowered, "exit 137"@) {
        let i = choose|i: int| occurs_at(lowered, "exit 137"@, i);
        assert(lowered.subrange(i, i + 6) =~= lowered.subrange(i, i + 8).subrange(0, 6));
        assert("exit 137"@.subrange(0, 6) =~= "exit 1"@);
        assert(occurs_at(lowered, "exit 1"@, i));
    }
}

fn holds(v: &Vec<char>, pat: &str) -> (b: bool)
    ensures
        b == contains(v@, pat@),
{
    let p = chars_of(pat);
    contains_vec(v, &p)
}

/// The advisory for an already lower-cased message.
pub fn hint_for_lowered(lowered: &str) -> (r: Option<String>)
    ensures
        match r {
            Some(h) => hint_for(lowered@) == Some(h@),
            None => hint_for(lowered@) is None,
        },
{
    let v = chars_of(lowered);
    if holds(&v, "exit code 137") || holds(&v, "exit 137") {
        Some(String::from_str(HINT_KILLED))
    } else if holds(&v, "exit code 1") || holds(&v, "exit 1") {
        Some(String::from_str(HINT_COMMAND_FAILED))
    } else if holds(&v, "connection refused") {
        Some(String::from_str(HINT_UNREACHABLE))
    } else if holds(&v, "permission denied") {
        Some(String::from_str(HINT_PERMISSION))
    } else if holds(&v, "not found") || holds(&v, "no such file") {
        Some(String::from_str(HINT_NOT_FOUND))
    } else if holds(&v, "timeout") {
        Some(String::from_str(HINT_TIMEOUT))
    } else if holds(&v, "opencode failed") {
        Some(String::from_str(HINT_GENERATION))
    } else {
        None
    }
}

/// The advisory for a message, found without regard to case; `None` where
/// no pattern matches.
pub fn extract_error_hint(msg: &str) -> (r: Option<String>)
    ensures
        match r {
            Some(h) => hint_for(lowercase(msg@)) == Some(h@),
            None => hint_for(lowercase(msg@)) is None,
        },
{
    let lowered = msg.to_lowercase();
    hint_for_lowered(lowered.as_str())
}

} // verus!
