//! Feedback for a retry after a failed attempt: which attempt it was,
//! whether another one is due, and a text that quotes the errors, the
//! output and the logs, each cut to a bounded length.

use crate::text::{
    chars_of, decimal, decimal_text_u64, find_char, first_char, join_texts, joined,
    lemma_first_char, texts_view,
};
use crate::xml::is_ascii_digit;
use vstd::prelude::*;
use vstd::utf8::{decode_utf8, encode_utf8, encode_utf8_decode_utf8, is_char_boundary};

verus! {

/// What is known after a failed attempt.
#[derive(Debug, Clone)]
pub struct FeedbackInput {
    /// Path to the output file.
    pub output_path: String,
    /// Path to the logs file.
    pub logs_path: String,
    /// The validation errors.
    pub validation_errors: Vec<String>,
    /// The current attempt, such as `2/5`.
    pub attempt: String,
    /// The greatest number of attempts.
    pub max_attempts: u32,
}

/// What the next attempt is told.
#[derive(Debug, Clone)]
pub struct FeedbackOutput {
    pub feedback: String,
    pub should_retry: bool,
    pub attempt_number: u32,
}

/// The number that a digit stands for.
pub open spec fn digit_value(c: char) -> nat {
    if c == '1' {
        1
    } else if c == '2' {
        2
    } else if c == '3' {
        3
    } else if c == '4' {
        4
    } else if c == '5' {
        5
    } else if c == '6' {
        6
    } else if c == '7' {
        7
    } else if c == '8' {
        8
    } else if c == '9' {
        9
    } else {
        0
    }
}

/// The number that a run of digits denotes in base ten.
pub open spec fn digits_value(s: Seq<char>) -> nat
    decreases s.len(),
{
    if s.len() == 0 {
        0
    } else {
        digits_value(s.drop_last()) * 10 + digit_value(s.last())
    }
}

/// Every character is a decimal digit.
pub open spec fn all_digits(s: Seq<char>) -> bool {
    forall|i: int| 0 <= i < s.len() ==> is_ascii_digit(#[trigger] s[i])
}

/// The digits of a numeral: what follows an optional `+`.
pub open spec fn unsigned_body(s: Seq<char>) -> Seq<char> {
    if s.len() > 0 && s[0] == '+' {
        s.drop_first()
    } else {
        s
    }
}

/// The number that a text denotes as an unsigned 32-bit numeral: an
/// optional `+` and at least one digit, nothing else, and a value that
/// fits.
pub open spec fn parsed_u32(s: Seq<char>) -> Option<u32> {
    let body = unsigned_body(s);
    if body.len() > 0 && all_digits(body) && digits_value(body) <= u32::MAX {
        Some(digits_value(body) as u32)
    } else {
        None
    }
}

/// What stands before the first `/`; the whole text without one.
pub open spec fn before_slash(s: Seq<char>) -> Seq<char> {
    match first_char(s, '/', 0) {
        Some(i) => s.take(i),
        None => s,
    }
}

/// The number of the attempt that a text such as `2/5` names; 1 where
/// the text names none.
pub open spec fn attempt_number(attempt: Seq<char>) -> u32 {
    match parsed_u32(before_slash(attempt)) {
        Some(n) => n,
        None => 1,
    }
}

/// The text that `limit` bytes of the UTF-8 form of `text` spell.
pub open spec fn byte_prefix(text: Seq<char>, limit: nat) -> Seq<char> {
    decode_utf8(encode_utf8(text).subrange(0, limit as int))
}

/// A text of more than `limit` bytes cut to its first `limit` bytes and
/// marked as cut; a shorter text as it is.
pub open spec fn cut_to(text: Seq<char>, limit: nat) -> Seq<char> {
    if encode_utf8(text).len() > limit {
        byte_prefix(text, limit) + "...[truncated]"@
    } else {
        text
    }
}

/// A text can be cut at `limit` bytes: it is no longer than that, or the
/// cut falls between two characters.
pub open spec fn can_cut(text: Seq<char>, limit: nat) -> bool {
    encode_utf8(text).len() > limit ==> is_char_boundary(encode_utf8(text), limit as int)
}

/// The errors, one on each line; a fixed remark where there are none.
pub open spec fn errors_text(errors: Seq<Seq<char>>) -> Seq<char> {
    if errors.len() == 0 {
        "No specific errors captured"@
    } else {
        joined(errors, "\n"@)
    }
}

/// The feedback text.
pub open spec fn feedback_text(
    attempt: u32,
    max_attempts: u32,
    errors: Seq<Seq<char>>,
    output: Seq<char>,
    logs: Seq<char>,
) -> Seq<char> {
    "ATTEMPT "@ + decimal(attempt as nat) + "/"@ + decimal(max_attempts as nat)
        + " FAILED.\n\nCONTRACT VALIDATION ERRORS:\n"@ + errors_text(errors)
        + "\n\nOUTPUT PRODUCED:\n"@ + cut_to(output, 2000) + "\n\nEXECUTION LOGS:\n"@ + cut_to(
        logs,
        1000,
    )
        + "\n\nFIX THE CODE TO SATISFY THE CONTRACT.\n- Check the error messages carefully\n- Ensure output matches the expected schema\n- Handle edge cases properly"@
}

/// What was read, or a fixed remark where nothing could be read.
pub open spec fn content_or(content: Option<&str>, remark: Seq<char>) -> Seq<char> {
    match content {
        Some(text) => text@,
        None => remark,
    }
}

/// A longer run of digits denotes no smaller number.
proof fn lemma_digits_value_grows(s: Seq<char>, i: int)
    requires
        0 <= i <= s.len(),
    ensures
        digits_value(s.take(i)) <= digits_value(s),
    decreases s.len() - i,
{
    if i < s.len() {
        lemma_digits_value_grows(s, i + 1);
        assert(s.take(i + 1).drop_last() == s.take(i));
    } else {
        assert(s.take(i) == s);
    }
}

fn value_of_digit(c: char) -> (r: Option<u64>)
    ensures
        match r {
            Some(d) => is_ascii_digit(c) && d == digit_value(c) && d < 10,
            None => !is_ascii_digit(c),
        },
{
    if c == '0' {
        Some(0)
    } else if c == '1' {
        Some(1)
    } else if c == '2' {
        Some(2)
    } else if c == '3' {
        Some(3)
    } else if c == '4' {
        Some(4)
    } else if c == '5' {
        Some(5)
    } else if c == '6' {
        Some(6)
    } else if c == '7' {
        Some(7)
    } else if c == '8' {
        Some(8)
    } else if c == '9' {
        Some(9)
    } else {
        None
    }
}

/// Reads an unsigned 32-bit numeral: an optional `+`, and digits only.
pub fn parse_u32(text: &str) -> (r: Option<u32>)
    ensures
        r == parsed_u32(text@),
{
    let v = chars_of(text);
    let start: usize = if v.len() > 0 && v[0] == '+' {
        1
    } else {
        0
    };
    let ghost body = unsigned_body(v@);
    if start == v.len() {
        return None;
    }
    let mut acc: u64 = 0;
    let mut i: usize = start;
    while i < v.len()
        invariant
            start <= i <= v.len(),
            body == v@.subrange(start as int, v.len() as int),
            body == unsigned_body(text@),
            all_digits(body.take(i - start)),
            acc == digits_value(body.take(i - start)),
            acc <= u32::MAX,
        decreases v.len() - i,
    {
        let ghost k = i - start;
        assert(body[k] == v@[i as int]);
        assert(body.take(k + 1).drop_last() == body.take(k));
        match value_of_digit(v[i]) {
            Some(d) => {
                let next: u64 = acc * 10 + d;
                if next > 4294967295u64 {
                    proof {
                        lemma_digits_value_grows(body, k + 1);
                    }
                    return None;
                }
                acc = next;
            },
            None => {
                return None;
            },
        }
        i += 1;
    }
    assert(body.take(i - start) == body);
    Some(acc as u32)
}

/// The number of the attempt that a text such as `2/5` names; 1 where
/// the text names none.
pub fn parse_attempt(attempt: &str) -> (r: u32)
    ensures
        r == attempt_number(attempt@),
{
    let v = chars_of(attempt);
    proof {
        lemma_first_char(attempt@, '/', 0);
    }
    let head: String = match find_char(&v, '/', 0) {
        Some(i) => {
            crate::text::text_of(&crate::text::slice(&v, 0, i))
        },
        None => String::from_str(attempt),
    };
    match parse_u32(head.as_str()) {
        Some(n) => n,
        None => 1,
    }
}

/// Whether a text can be cut at `limit` bytes.
pub fn cut_allowed(text: &str, limit: usize) -> (b: bool)
    ensures
        b == can_cut(text@, limit as nat),
{
    text.as_bytes().len() <= limit || text.is_char_boundary(limit)
}

/// Cuts a text of more than `limit` bytes to its first `limit` bytes and
/// marks it as cut.
pub fn cut(text: &str, limit: usize) -> (r: String)
    requires
        can_cut(text@, limit as nat),
    ensures
        r@ == cut_to(text@, limit as nat),
{
    if text.as_bytes().len() > limit {
        let (head, _) = text.split_at(limit);
        proof {
            encode_utf8_decode_utf8(head@);
        }
        let mut out = String::from_str(head);
        out.append("...[truncated]");
        out
    } else {
        String::from_str(text)
    }
}

fn errors_listing(errors: &Vec<String>) -> (r: String)
    ensures
        r@ == errors_text(texts_view(errors@)),
{
    if errors.len() == 0 {
        String::from_str("No specific errors captured")
    } else {
        join_texts(errors, "\n")
    }
}

/// The feedback for the next attempt. The output and the logs are
/// quoted up to 2000 and 1000 bytes.
pub fn build_feedback(input: &FeedbackInput, output: &str, logs: &str) -> (r: FeedbackOutput)
    requires
        can_cut(output@, 2000),
        can_cut(logs@, 1000),
    ensures
        r.attempt_number == attempt_number(input.attempt@),
        r.should_retry == (attempt_number(input.attempt@) < input.max_attempts),
        r.feedback@ == feedback_text(
            attempt_number(input.attempt@),
            input.max_attempts,
            texts_view(input.validation_errors@),
            output@,
            logs@,
        ),
{
    let attempt = parse_attempt(input.attempt.as_str());
    let attempt_text = decimal_text_u64(attempt as u64);
    let max_text = decimal_text_u64(input.max_attempts as u64);
    let errors = errors_listing(&input.validation_errors);
    let output_part = cut(output, 2000);
    let logs_part = cut(logs, 1000);
    let mut out = String::from_str("ATTEMPT ");
    out.append(attempt_text.as_str());
    out.append("/");
    out.append(max_text.as_str());
    out.append(" FAILED.\n\nCONTRACT VALIDATION ERRORS:\n");
    out.append(errors.as_str());
    out.append("\n\nOUTPUT PRODUCED:\n");
    out.append(output_part.as_str());
    out.append("\n\nEXECUTION LOGS:\n");
    out.append(logs_part.as_str());
    out.append(
        "\n\nFIX THE CODE TO SATISFY THE CONTRACT.\n- Check the error messages carefully\n- Ensure output matches the expected schema\n- Handle edge cases properly",
    );
    FeedbackOutput {
        feedback: out,
        should_retry: attempt < input.max_attempts,
        attempt_number: attempt,
    }
}

/// The feedback for the next attempt, from what could be read of the
/// output and of the logs; a fixed remark stands for what could not.
pub fn collect_feedback(input: &FeedbackInput, output: Option<&str>, logs: Option<&str>) -> (r:
    FeedbackOutput)
    requires
        can_cut(content_or(output, "<no output>"@), 2000),
        can_cut(content_or(logs, "<no logs>"@), 1000),
    ensures
        r.attempt_number == attempt_number(input.attempt@),
        r.should_retry == (attempt_number(input.attempt@) < input.max_attempts),
        r.feedback@ == feedback_text(
            attempt_number(input.attempt@),
            input.max_attempts,
            texts_view(input.validation_errors@),
            content_or(output, "<no output>"@),
            content_or(logs, "<no logs>"@),
        ),
{
    let output_text: &str = match output {
        Some(text) => text,
        None => "<no output>",
    };
    let logs_text: &str = match logs {
        Some(text) => text,
        None => "<no logs>",
    };
    build_feedback(input, output_text, logs_text)
}

} // verus!
