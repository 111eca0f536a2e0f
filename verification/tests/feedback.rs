use bitter_truth::feedback::{
    build_feedback, collect_feedback, cut, cut_allowed, parse_attempt, parse_u32, FeedbackInput,
};

fn input(attempt: &str, max_attempts: u32, errors: &[&str]) -> FeedbackInput {
    FeedbackInput {
        output_path: "/tmp/out.json".into(),
        logs_path: "/tmp/logs.txt".into(),
        validation_errors: errors.iter().map(|e| e.to_string()).collect(),
        attempt: attempt.into(),
        max_attempts,
    }
}

#[test]
fn unsigned_numerals() {
    assert_eq!(parse_u32("0"), Some(0));
    assert_eq!(parse_u32("7"), Some(7));
    assert_eq!(parse_u32("+7"), Some(7));
    assert_eq!(parse_u32("0042"), Some(42));
    assert_eq!(parse_u32("4294967295"), Some(4294967295));
    assert_eq!(parse_u32("004294967295"), Some(4294967295));
    assert_eq!(parse_u32("4294967296"), None);
    assert_eq!(parse_u32("99999999999999999999999999"), None);
    assert_eq!(parse_u32(""), None);
    assert_eq!(parse_u32("+"), None);
    assert_eq!(parse_u32("-1"), None);
    assert_eq!(parse_u32("++1"), None);
    assert_eq!(parse_u32(" 1"), None);
    assert_eq!(parse_u32("1 "), None);
    assert_eq!(parse_u32("1_000"), None);
    assert_eq!(parse_u32("12a"), None);
    assert_eq!(parse_u32("\u{661}"), None);
}

#[test]
fn attempt_numbers() {
    assert_eq!(parse_attempt("2/5"), 2);
    assert_eq!(parse_attempt("10/5"), 10);
    assert_eq!(parse_attempt("3"), 3);
    assert_eq!(parse_attempt("3/"), 3);
    assert_eq!(parse_attempt("4/5/6"), 4);
    assert_eq!(parse_attempt("/5"), 1);
    assert_eq!(parse_attempt(""), 1);
    assert_eq!(parse_attempt("two/5"), 1);
    assert_eq!(parse_attempt(" 2/5"), 1);
    assert_eq!(parse_attempt("99999999999/5"), 1);
}

#[test]
fn cutting() {
    assert_eq!(cut("hello", 10), "hello");
    assert_eq!(cut("hello", 5), "hello");
    assert_eq!(cut("hello!", 5), "hello...[truncated]");
    assert_eq!(cut("", 0), "");
    assert_eq!(cut("a\u{e9}b", 3), "a\u{e9}...[truncated]");
    assert_eq!(cut("a\u{e9}b", 1), "a...[truncated]");
    assert!(cut_allowed("a\u{e9}b", 1));
    assert!(!cut_allowed("a\u{e9}b", 2));
    assert!(cut_allowed("a\u{e9}b", 3));
    assert!(cut_allowed("a\u{e9}b", 4));
    assert!(cut_allowed("a\u{e9}b", 400));
}

#[test]
fn feedback_exact() {
    let out = build_feedback(&input("2/5", 5, &["missing field a", "bad type b"]), "{}", "log line");
    assert_eq!(out.attempt_number, 2);
    assert!(out.should_retry);
    assert_eq!(
        out.feedback,
        "ATTEMPT 2/5 FAILED.\n\nCONTRACT VALIDATION ERRORS:\nmissing field a\nbad type b\n\nOUTPUT PRODUCED:\n{}\n\nEXECUTION LOGS:\nlog line\n\nFIX THE CODE TO SATISFY THE CONTRACT.\n- Check the error messages carefully\n- Ensure output matches the expected schema\n- Handle edge cases properly"
    );
}

#[test]
fn feedback_without_errors_or_files() {
    let out = collect_feedback(&input("5/5", 5, &[]), None, None);
    assert_eq!(out.attempt_number, 5);
    assert!(!out.should_retry);
    assert!(out.feedback.starts_with(
        "ATTEMPT 5/5 FAILED.\n\nCONTRACT VALIDATION ERRORS:\nNo specific errors captured\n\nOUTPUT PRODUCED:\n<no output>\n\nEXECUTION LOGS:\n<no logs>\n\nFIX THE CODE"
    ));
    let out = collect_feedback(&input("x", 1, &[]), Some("o"), Some("l"));
    assert_eq!(out.attempt_number, 1);
    assert!(!out.should_retry);
    assert!(out.feedback.contains("OUTPUT PRODUCED:\no\n\nEXECUTION LOGS:\nl\n\n"));
}

#[test]
fn feedback_cuts_long_texts() {
    let output = "o".repeat(2001);
    let logs = "l".repeat(1001);
    let out = build_feedback(&input("1/3", 3, &[]), &output, &logs);
    assert!(out.should_retry);
    assert!(out.feedback.contains(&format!("\n{}...[truncated]\n\nEXECUTION LOGS:", "o".repeat(2000))));
    assert!(out.feedback.contains(&format!("\n{}...[truncated]\n\nFIX THE CODE", "l".repeat(1000))));
    let exact = build_feedback(&input("1/3", 3, &[]), &"o".repeat(2000), &"l".repeat(1000));
    assert!(!exact.feedback.contains("[truncated]"));
}
