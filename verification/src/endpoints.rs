//! The addresses of the workflow server's resources, and the small
//! decisions of the program that watches it.

use crate::text::{chars_of, equals};
use crate::xml::{escape, escape_xml};
use vstd::prelude::*;

verus! {

/// The address of one execution.
pub open spec fn execution_address(base: Seq<char>, id: Seq<char>) -> Seq<char> {
    "http://"@ + base + "/api/v1/executions/"@ + id
}

/// The address of the logs of one execution.
pub open spec fn logs_address(base: Seq<char>, id: Seq<char>) -> Seq<char> {
    "http://"@ + base + "/api/v1/logs/"@ + id
}

/// The address of the executions of a namespace.
pub open spec fn executions_address(base: Seq<char>, namespace: Seq<char>) -> Seq<char> {
    "http://"@ + base + "/api/v1/executions?namespace="@ + namespace
}

/// `name=value`, behind `&` where something stands before it; nothing
/// for an absent value.
pub open spec fn with_param(query: Seq<char>, name: Seq<char>, value: Option<&str>) -> Seq<char> {
    match value {
        Some(v) => if query.len() == 0 {
            name + "="@ + v@
        } else {
            query + "&"@ + name + "="@ + v@
        },
        None => query,
    }
}

/// The parameters of a search for logs: namespace, flow and execution,
/// each where given.
pub open spec fn log_params(
    namespace: Option<&str>,
    flow: Option<&str>,
    execution_id: Option<&str>,
) -> Seq<char> {
    with_param(
        with_param(with_param(Seq::empty(), "namespace"@, namespace), "flowId"@, flow),
        "executionId"@,
        execution_id,
    )
}

/// The query of a search for logs: `?` and the parameters, or nothing.
pub open spec fn log_query_text(
    namespace: Option<&str>,
    flow: Option<&str>,
    execution_id: Option<&str>,
) -> Seq<char> {
    let params = log_params(namespace, flow, execution_id);
    if params.len() == 0 {
        Seq::empty()
    } else {
        "?"@ + params
    }
}

/// The address from which logs are streamed: that of one execution where
/// one is named, else that of a search.
pub open spec fn stream_address(
    base: Seq<char>,
    execution_id: Option<&str>,
    namespace: Option<&str>,
    flow: Option<&str>,
) -> Seq<char> {
    match execution_id {
        Some(id) => logs_address(base, id@),
        None => "http://"@ + base + "/api/v1/logs"@ + log_query_text(namespace, flow, execution_id),
    }
}

/// The announcement of a new execution.
pub open spec fn announcement_xml(
    id: Seq<char>,
    namespace: Seq<char>,
    flow: Seq<char>,
    state: Seq<char>,
) -> Seq<char> {
    "<new_execution>\n  <id>"@ + escape(id) + "</id>\n  <namespace>"@ + escape(namespace)
        + "</namespace>\n  <flow_id>"@ + escape(flow) + "</flow_id>\n  <state>"@ + escape(state)
        + "</state>\n</new_execution>"@
}

/// The forms in which a log entry is printed.
#[derive(Debug, Clone, Copy, PartialEq, Eq, Structural)]
pub enum LogFormat {
    Json,
    Xml,
    Raw,
    Pretty,
}

/// The form that a name selects; `Pretty` for any name but `json`, `xml`
/// and `raw`.
pub open spec fn format_named(name: Seq<char>) -> LogFormat {
    if name == "json"@ {
        LogFormat::Json
    } else if name == "xml"@ {
        LogFormat::Xml
    } else if name == "raw"@ {
        LogFormat::Raw
    } else {
        LogFormat::Pretty
    }
}

/// The colours in which states and levels are printed.
#[derive(Debug, Clone, Copy, PartialEq, Eq, Structural)]
pub enum Tint {
    Green,
    Red,
    Blue,
    Yellow,
    Dimmed,
}

/// The colour of an execution's state.
pub open spec fn state_tint(state: Seq<char>) -> Tint {
    if state == "SUCCESS"@ {
        Tint::Green
    } else if state == "FAILED"@ || state == "KILLED"@ {
        Tint::Red
    } else if state == "RUNNING"@ {
        Tint::Blue
    } else {
        Tint::Yellow
    }
}

/// The colour of a log level.
pub open spec fn level_tint(level: Seq<char>) -> Tint {
    if level == "ERROR"@ {
        Tint::Red
    } else if level == "WARN"@ || level == "WARNING"@ {
        Tint::Yellow
    } else if level == "DEBUG"@ || level == "TRACE"@ {
        Tint::Dimmed
    } else {
        Tint::Blue
    }
}

/// The address of one execution.
pub fn execution_url(base: &str, id: &str) -> (r: String)
    ensures
        r@ == execution_address(base@, id@),
{
    let mut out = String::from_str("http://");
    out.append(base);
    out.append("/api/v1/executions/");
    out.append(id);
    out
}

/// The address of the logs of one execution.
pub fn logs_url(base: &str, id: &str) -> (r: String)
    ensures
        r@ == logs_address(base@, id@),
{
    let mut out = String::from_str("http://");
    out.append(base);
    out.append("/api/v1/logs/");
    out.append(id);
    out
}

/// The address of the executions of a namespace.
pub fn executions_url(base: &str, namespace: &str) -> (r: String)
    ensures
        r@ == executions_address(base@, namespace@),
{
    let mut out = String::from_str("http://");
    out.append(base);
    out.append("/api/v1/executions?namespace=");
    out.append(namespace);
    out
}

fn add_param(query: String, name: &str, value: Option<&str>) -> (r: String)
    ensures
        r@ == with_param(query@, name@, value),
{
    match value {
        Some(v) => {
            if chars_of(query.as_str()).len() == 0 {
                let mut out = String::from_str(name);
                out.append("=");
                out.append(v);
                out
            } else {
                let mut out = query;
                out.append("&");
                out.append(name);
                out.append("=");
                out.append(v);
                out
            }
        },
        None => query,
    }
}

/// The query of a search for logs.
pub fn log_query(namespace: Option<&str>, flow: Option<&str>, execution_id: Option<&str>) -> (r:
    String)
    ensures
        r@ == log_query_text(namespace, flow, execution_id),
{
    let params = add_param(
        add_param(add_param(String::new(), "namespace", namespace), "flowId", flow),
        "executionId",
        execution_id,
    );
    if chars_of(params.as_str()).len() == 0 {
        String::new()
    } else {
        let mut out = String::from_str("?");
        out.append(params.as_str());
        out
    }
}

/// The address from which logs are streamed.
pub fn stream_logs_url(
    base: &str,
    execution_id: Option<&str>,
    namespace: Option<&str>,
    flow: Option<&str>,
) -> (r: String)
    ensures
        r@ == stream_address(base@, execution_id, namespace, flow),
{
    match execution_id {
        Some(id) => logs_url(base, id),
        None => {
            let query = log_query(namespace, flow, execution_id);
            let mut out = String::from_str("http://");
            out.append(base);
            out.append("/api/v1/logs");
            out.append(query.as_str());
            out
        },
    }
}

/// The announcement of a new execution, each text escaped.
pub fn new_execution_xml(id: &str, namespace: &str, flow: &str, state: &str) -> (r: String)
    ensures
        r@ == announcement_xml(id@, namespace@, flow@, state@),
{
    let id_text = escape_xml(id);
    let namespace_text = escape_xml(namespace);
    let flow_text = escape_xml(flow);
    let state_text = escape_xml(state);
    let mut out = String::from_str("<new_execution>\n  <id>");
    out.append(id_text.as_str());
    out.append("</id>\n  <namespace>");
    out.append(namespace_text.as_str());
    out.append("</namespace>\n  <flow_id>");
    out.append(flow_text.as_str());
    out.append("</flow_id>\n  <state>");
    out.append(state_text.as_str());
    out.append("</state>\n</new_execution>");
    out
}

/// The form that a name selects.
pub fn log_format(name: &str) -> (r: LogFormat)
    ensures
        r == format_named(name@),
{
    let v = chars_of(name);
    if equals(&v, "json") {
        LogFormat::Json
    } else if equals(&v, "xml") {
        LogFormat::Xml
    } else if equals(&v, "raw") {
        LogFormat::Raw
    } else {
        LogFormat::Pretty
    }
}

/// The colour of an execution's state.
pub fn tint_of_state(state: &str) -> (r: Tint)
    ensures
        r == state_tint(state@),
{
    let v = chars_of(state);
    if equals(&v, "SUCCESS") {
        Tint::Green
    } else if equals(&v, "FAILED") || equals(&v, "KILLED") {
        Tint::Red
    } else if equals(&v, "RUNNING") {
        Tint::Blue
    } else {
        Tint::Yellow
    }
}

/// The colour of a log level.
pub fn tint_of_level(level: &str) -> (r: Tint)
    ensures
        r == level_tint(level@),
{
    let v = chars_of(level);
    if equals(&v, "ERROR") {
        Tint::Red
    } else if equals(&v, "WARN") || equals(&v, "WARNING") {
        Tint::Yellow
    } else if equals(&v, "DEBUG") || equals(&v, "TRACE") {
        Tint::Dimmed
    } else {
        Tint::Blue
    }
}

} // verus!
