//! Log rendering, written once more with `serde_json` and the formatting
//! of the standard library, and held against the library.

use bitter_truth::hint::extract_error_hint;
use bitter_truth::log_entry::{try_parse_structured_message, LogEntry};
use bitter_truth::severity::classify_severity;
use bitter_truth::xml::{escape_xml, sanitize_xml_tag};
use serde_json::Value;

fn escaped(s: &str) -> String {
    s.replace('&', "&amp;")
        .replace('<', "&lt;")
        .replace('>', "&gt;")
        .replace('"', "&quot;")
        .replace('\'', "&apos;")
}

fn tag_of(s: &str) -> String {
    let mut result = String::new();
    for (i, c) in s.chars().enumerate() {
        if i == 0 {
            if c.is_ascii_alphabetic() || c == '_' {
                result.push(c);
            } else {
                result.push('_');
                if c.is_ascii_alphanumeric() {
                    result.push(c);
                }
            }
        } else if c.is_ascii_alphanumeric() || c == '_' || c == '-' || c == '.' {
            result.push(c);
        } else {
            result.push('_');
        }
    }
    if result.is_empty() {
        result = "field".to_string();
    }
    result
}

fn scalar(value: &Value) -> String {
    match value {
        Value::String(s) => s.clone(),
        Value::Number(n) => n.to_string(),
        Value::Bool(b) => b.to_string(),
        Value::Null => "null".to_string(),
        _ => value.to_string(),
    }
}

fn xml_of(value: &Value, indent: usize) -> String {
    let spaces = "  ".repeat(indent);
    match value {
        Value::Object(map) => {
            let mut xml = String::new();
            for (key, val) in map {
                let safe_key = tag_of(key);
                match val {
                    Value::Object(_) | Value::Array(_) => {
                        xml.push_str(&format!("{}<{}>\n", spaces, safe_key));
                        xml.push_str(&xml_of(val, indent + 1));
                        xml.push_str(&format!("{}</{}>\n", spaces, safe_key));
                    }
                    _ => {
                        xml.push_str(&format!(
                            "{}<{}>{}</{}>\n",
                            spaces,
                            safe_key,
                            escaped(&scalar(val)),
                            safe_key
                        ));
                    }
                }
            }
            xml
        }
        Value::Array(arr) => {
            let mut xml = String::new();
            for (i, val) in arr.iter().enumerate() {
                xml.push_str(&format!("{}<item index=\"{}\">\n", spaces, i));
                xml.push_str(&xml_of(val, indent + 1));
                xml.push_str(&format!("{}</item>\n", spaces));
            }
            xml
        }
        _ => format!("{}<value>{}</value>\n", spaces, escaped(&scalar(value))),
    }
}

fn structured(msg: &str) -> Option<String> {
    if let Ok(json) = serde_json::from_str::<Value>(msg) {
        return Some(xml_of(&json, 2));
    }
    if let Some(start) = msg.find('{') {
        if let Some(end) = msg.rfind('}') {
            if end > start {
                if let Ok(json) = serde_json::from_str::<Value>(&msg[start..=end]) {
                    let prefix = msg[..start].trim();
                    let mut result = String::new();
                    if !prefix.is_empty() {
                        result.push_str(&format!("    <prefix>{}</prefix>\n", escaped(prefix)));
                    }
                    result.push_str(&xml_of(&json, 2));
                    return Some(result);
                }
            }
        }
    }
    None
}

fn severity_name(level: &str) -> &'static str {
    match level.to_uppercase().as_str() {
        "TRACE" => "trace",
        "DEBUG" => "debug",
        "INFO" => "info",
        "WARN" | "WARNING" => "warning",
        "ERROR" => "error",
        "FATAL" | "CRITICAL" => "fatal",
        _ => "info",
    }
}

fn hint_of(msg: &str) -> Option<&'static str> {
    let m = msg.to_lowercase();
    if m.contains("exit code 137") || m.contains("exit 137") {
        Some("Process killed (OOM or timeout). Check memory limits or increase timeout.")
    } else if m.contains("exit code 1") || m.contains("exit 1") {
        Some("Command failed. Check the command output for specific error details.")
    } else if m.contains("connection refused") {
        Some("Service unreachable. Check if the target service is running.")
    } else if m.contains("permission denied") {
        Some("Permission issue. Check file/resource permissions.")
    } else if m.contains("not found") || m.contains("no such file") {
        Some("Resource not found. Verify paths and dependencies exist.")
    } else if m.contains("timeout") {
        Some("Operation timed out. Consider increasing timeout or optimizing the operation.")
    } else if m.contains("opencode failed") {
        Some("AI code generation failed. Check opencode logs and API connectivity.")
    } else {
        None
    }
}

fn log_xml(entry: &LogEntry) -> String {
    let level = entry.level.as_deref().unwrap_or("INFO");
    let severity = severity_name(level);
    let msg = entry.message.as_deref().unwrap_or("");
    let mut xml = format!("<log severity=\"{}\">\n", severity);
    xml.push_str("  <meta>\n");
    for (name, field) in [
        ("execution_id", &entry.execution_id),
        ("namespace", &entry.namespace),
        ("flow_id", &entry.flow_id),
        ("task_id", &entry.task_id),
        ("level", &entry.level),
        ("timestamp", &entry.timestamp),
    ] {
        if let Some(value) = field {
            xml.push_str(&format!("    <{}>{}</{}>\n", name, escaped(value), name));
        }
    }
    xml.push_str("  </meta>\n");
    if let Some(parsed) = structured(msg) {
        xml.push_str("  <structured_message>\n");
        xml.push_str(&parsed);
        xml.push_str("  </structured_message>\n");
    }
    xml.push_str(&format!("  <message><![CDATA[{}]]></message>\n", msg));
    if severity == "error" || severity == "fatal" {
        if let Some(hint) = hint_of(msg) {
            xml.push_str(&format!("  <action_hint>{}</action_hint>\n", escaped(hint)));
        }
    }
    xml.push_str("</log>");
    xml
}

const MESSAGES: [&str; 24] = [
    "",
    "plain text",
    "{\"level\":\"info\",\"msg\":\"x\"}",
    "prefix text {\"level\":\"info\",\"msg\":\"x\"} suffix",
    "  \t{\"a\": [1, 2.50, -3e2, true, null, \"s<&>\"]}",
    "[{\"k\": {\"1st key\": \"v\", \"\": 0, \"a b\": {}}}, []]",
    "\"just a string with 'quotes'\"",
    "12345",
    "null",
    "{\"\u{e9}t\u{e9}\": \"\u{4e16}\u{754c}\", \"x-y.z_0\": \"&amp;\"}",
    "{\"dup\": 1, \"other\": 2, \"dup\": 3}",
    "error: {broken json} connection refused",
    "a } b { c",
    "Process exited with exit code 137",
    "Exit 1: Permission Denied while opening <file>",
    "File NOT FOUND & no such file",
    "TIMEOUT after 30s; opencode failed",
    "opencode failed",
    "{\"deep\": {\"deeper\": {\"deepest\": [[[1]]]}}}",
    "text before {\"a\":1} and {\"b\":2} after",
    "{\"a\":1}}",
    "{{\"a\":1}",
    "<tag attr=\"v\">&'</tag> {\"k\":\"<v>\"}",
    "\u{130}stanbul exit code 1 \u{212a}",
];

#[test]
fn structured_readings_agree() {
    for msg in MESSAGES {
        assert_eq!(try_parse_structured_message(msg), structured(msg), "{:?}", msg);
    }
}

#[test]
fn log_elements_agree() {
    let levels = [
        None,
        Some("INFO"),
        Some("error"),
        Some("Fatal"),
        Some("critical"),
        Some("WARN"),
        Some("warning"),
        Some("debug"),
        Some("TRACE"),
        Some(""),
        Some("banana"),
        Some("\u{131}nfo"),
        Some("<&>"),
    ];
    for msg in MESSAGES {
        for level in levels {
            for full in [false, true] {
                let field = |text: &str| if full { Some(text.to_string()) } else { None };
                let entry = LogEntry {
                    execution_id: field("exec-<1>"),
                    namespace: field("ns & co"),
                    flow_id: None,
                    task_id: field("task \"t\""),
                    message: Some(msg.to_string()),
                    level: level.map(|l| l.to_string()),
                    timestamp: field("2024-12-25T00:00:00Z"),
                };
                assert_eq!(entry.format_xml(), log_xml(&entry), "{:?} {:?}", level, msg);
            }
        }
    }
}

#[test]
fn classification_and_hints_agree() {
    for text in MESSAGES.iter().chain(["WARN", "warn", "Critical", "\u{17f}"].iter()) {
        assert_eq!(classify_severity(text).as_str(), severity_name(text), "{:?}", text);
        assert_eq!(extract_error_hint(text).as_deref(), hint_of(text), "{:?}", text);
    }
}

#[test]
fn escaping_and_tags_agree() {
    for text in MESSAGES.iter().chain(["1field", "valid_name", "-", " x", "a/b"].iter()) {
        assert_eq!(escape_xml(text), escaped(text), "{:?}", text);
        assert_eq!(sanitize_xml_tag(text), tag_of(text), "{:?}", text);
    }
}
