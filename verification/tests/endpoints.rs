use bitter_truth::endpoints::{
    execution_url, executions_url, log_format, log_query, logs_url, new_execution_xml,
    stream_logs_url, tint_of_level, tint_of_state, LogFormat, Tint,
};
use bitter_truth::execution::LogCursor;

#[test]
fn addresses() {
    assert_eq!(execution_url("localhost:4200", "abc"), "http://localhost:4200/api/v1/executions/abc");
    assert_eq!(logs_url("localhost:4200", "abc"), "http://localhost:4200/api/v1/logs/abc");
    assert_eq!(
        executions_url("host", "bitter"),
        "http://host/api/v1/executions?namespace=bitter"
    );
}

#[test]
fn queries() {
    assert_eq!(log_query(None, None, None), "");
    assert_eq!(log_query(Some("ns"), None, None), "?namespace=ns");
    assert_eq!(log_query(None, Some("f"), None), "?flowId=f");
    assert_eq!(log_query(None, None, Some("e")), "?executionId=e");
    assert_eq!(log_query(Some("ns"), Some("f"), Some("e")), "?namespace=ns&flowId=f&executionId=e");
    assert_eq!(log_query(Some("ns"), None, Some("e")), "?namespace=ns&executionId=e");
    assert_eq!(log_query(Some(""), None, None), "?namespace=");
    assert_eq!(log_query(Some(""), Some("f"), None), "?namespace=&flowId=f");
}

#[test]
fn stream_addresses() {
    assert_eq!(stream_logs_url("h", Some("e1"), Some("ns"), None), "http://h/api/v1/logs/e1");
    assert_eq!(stream_logs_url("h", None, Some("ns"), Some("f")), "http://h/api/v1/logs?namespace=ns&flowId=f");
    assert_eq!(stream_logs_url("h", None, None, None), "http://h/api/v1/logs");
}

#[test]
fn new_execution_exact() {
    assert_eq!(
        new_execution_xml("e<1>", "ns", "f&g", "RUNNING"),
        "<new_execution>\n  <id>e&lt;1&gt;</id>\n  <namespace>ns</namespace>\n  <flow_id>f&amp;g</flow_id>\n  <state>RUNNING</state>\n</new_execution>"
    );
}

#[test]
fn formats_and_tints() {
    assert_eq!(log_format("json"), LogFormat::Json);
    assert_eq!(log_format("xml"), LogFormat::Xml);
    assert_eq!(log_format("raw"), LogFormat::Raw);
    assert_eq!(log_format("pretty"), LogFormat::Pretty);
    assert_eq!(log_format("JSON"), LogFormat::Pretty);
    assert_eq!(log_format(""), LogFormat::Pretty);
    assert_eq!(tint_of_state("SUCCESS"), Tint::Green);
    assert_eq!(tint_of_state("FAILED"), Tint::Red);
    assert_eq!(tint_of_state("KILLED"), Tint::Red);
    assert_eq!(tint_of_state("RUNNING"), Tint::Blue);
    assert_eq!(tint_of_state("WARNING"), Tint::Yellow);
    assert_eq!(tint_of_state("created"), Tint::Yellow);
    assert_eq!(tint_of_level("ERROR"), Tint::Red);
    assert_eq!(tint_of_level("WARN"), Tint::Yellow);
    assert_eq!(tint_of_level("WARNING"), Tint::Yellow);
    assert_eq!(tint_of_level("DEBUG"), Tint::Dimmed);
    assert_eq!(tint_of_level("TRACE"), Tint::Dimmed);
    assert_eq!(tint_of_level("INFO"), Tint::Blue);
    assert_eq!(tint_of_level("error"), Tint::Blue);
}

#[test]
fn cursor_hands_out_each_entry_once() {
    let mut cursor = LogCursor::new();
    assert_eq!(cursor.advance(3), 0);
    assert_eq!(cursor.seen_log_count, 3);
    assert_eq!(cursor.advance(3), 3);
    assert_eq!(cursor.seen_log_count, 3);
    assert_eq!(cursor.advance(5), 3);
    assert_eq!(cursor.seen_log_count, 5);
    assert_eq!(cursor.advance(2), 2);
    assert_eq!(cursor.seen_log_count, 5);
    assert_eq!(cursor.advance(0), 0);
    assert_eq!(cursor.seen_log_count, 5);
}
