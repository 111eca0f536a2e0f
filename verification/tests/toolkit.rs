use bitter_truth::toolkit::{chrono_lite_now, error_line, timestamp_text, LogEntry};
use bitter_truth::value::{json_to_xml, DynamicValue};

#[test]
fn time_stamps() {
    assert_eq!(timestamp_text(Some(0)), "0");
    assert_eq!(timestamp_text(Some(1735084800)), "1735084800");
    assert_eq!(timestamp_text(Some(u64::MAX)), "18446744073709551615");
    assert_eq!(timestamp_text(None), "0");
    let now = chrono_lite_now();
    assert!(!now.is_empty());
    assert!(now.chars().all(|c| c.is_ascii_digit()));
    assert!(now.len() >= 10);
}

#[test]
fn error_lines() {
    assert_eq!(
        error_line("tool failed", "no \"input\"", "17"),
        "{\"level\":\"error\",\"msg\":\"tool failed\",\"error\":\"no \\\"input\\\"\",\"ts\":\"17\"}"
    );
    assert_eq!(
        error_line("\"", "", ""),
        "{\"level\":\"error\",\"msg\":\"\\\"\",\"error\":\"\",\"ts\":\"\"}"
    );
}

#[test]
fn log_lines_by_level() {
    let info = LogEntry::info("started", "t1".to_string());
    assert_eq!((info.level.as_str(), info.msg.as_str(), info.trace_id.as_str()), ("info", "started", "t1"));
    assert!(info.extra.is_empty());
    let error = LogEntry::error("broke", "t2".to_string());
    assert_eq!((error.level.as_str(), error.msg.as_str(), error.trace_id.as_str()), ("error", "broke", "t2"));
    let debug = LogEntry::debug("detail", "t3".to_string());
    assert_eq!((debug.level.as_str(), debug.msg.as_str(), debug.trace_id.as_str()), ("debug", "detail", "t3"));
    assert!(debug.extra.is_empty());
}

#[test]
fn extra_members_keep_their_place() {
    let entry = LogEntry::info("m", "t".to_string())
        .with_extra("b", DynamicValue::Bool(true))
        .with_extra("a", DynamicValue::String("x".to_string()))
        .with_extra("b", DynamicValue::Number("2".to_string()));
    assert_eq!(entry.extra.len(), 2);
    assert_eq!(entry.extra[0].0, "b");
    assert_eq!(entry.extra[1].0, "a");
    let members = DynamicValue::Object(entry.extra);
    assert_eq!(json_to_xml(&members, 0), "<b>2</b>\n<a>x</a>\n");
}
