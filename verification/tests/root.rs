use bitter_truth::{
    classify_severity, escape_xml, extract_code_block, extract_json, json_to_xml,
    looks_like_code, sanitize_xml_tag, DynamicValue, Execution, ExecutionState, ExtractError,
    LogEntry, Severity, StreamSession, TaskRun, XmlStream,
};

#[test]
fn the_main_items_stand_at_the_root() {
    assert_eq!(escape_xml("<"), "&lt;");
    assert_eq!(sanitize_xml_tag("1"), "_1");
    assert_eq!(classify_severity("fatal"), Severity::Fatal);
    assert!(looks_like_code("fn main() {}"));
    assert_eq!(extract_code_block("```\nx\n```", None), Ok("x".to_string()));
    assert_eq!(extract_json("x"), Err(ExtractError::JsonNotFound));
    assert_eq!(json_to_xml(&DynamicValue::Null, 0), "<value>null</value>\n");
    let state = ExecutionState { current: "SUCCESS".into() };
    let execution = Execution {
        id: "e".into(),
        namespace: "n".into(),
        flow_id: "f".into(),
        state: state.clone(),
        task_run_list: Some(vec![TaskRun { id: "r".into(), task_id: "t".into(), state }]),
    };
    assert_eq!(execution.task_summary(), "t:SUCCESS");
    let entry = LogEntry {
        execution_id: None,
        namespace: None,
        flow_id: None,
        task_id: None,
        message: None,
        level: Some("warn".into()),
        timestamp: None,
    };
    let mut session = StreamSession::new();
    session.render(&entry);
    assert_eq!(session.warning_count, 1);
    assert!(XmlStream::started_at("e", "n", "f", "t").header().contains("<logs>"));
}
