//! The state of a workflow execution and of its task runs, with a
//! one-line summary and an XML status element.

use crate::text::{chars_of, equals};
use crate::xml::{escape, escape_xml};
use vstd::prelude::*;

verus! {

/// The state of an execution or of a task run, as the server names it.
#[derive(Debug, Clone, PartialEq, Eq)]
pub struct ExecutionState {
    pub current: String,
}

/// One run of a task inside an execution.
#[derive(Debug, Clone, PartialEq, Eq)]
pub struct TaskRun {
    pub id: String,
    pub task_id: String,
    pub state: ExecutionState,
}

/// An execution of a flow.
#[derive(Debug, Clone)]
pub struct Execution {
    pub id: String,
    pub namespace: String,
    pub flow_id: String,
    pub state: ExecutionState,
    pub task_run_list: Option<Vec<TaskRun>>,
}

/// A task run as plain texts.
pub ghost struct TaskRunView {
    pub id: Seq<char>,
    pub task_id: Seq<char>,
    pub state: Seq<char>,
}

/// An execution as plain texts.
pub ghost struct ExecutionView {
    pub id: Seq<char>,
    pub namespace: Seq<char>,
    pub flow_id: Seq<char>,
    pub state: Seq<char>,
    pub tasks: Option<Seq<TaskRunView>>,
}

impl View for ExecutionState {
    type V = Seq<char>;

    open spec fn view(&self) -> Seq<char> {
        self.current@
    }
}

impl View for TaskRun {
    type V = TaskRunView;

    open spec fn view(&self) -> TaskRunView {
        TaskRunView { id: self.id@, task_id: self.task_id@, state: self.state@ }
    }
}

/// The task runs as plain texts, in order.
pub open spec fn task_views(tasks: Seq<TaskRun>) -> Seq<TaskRunView> {
    tasks.map_values(|t: TaskRun| t@)
}

impl View for Execution {
    type V = ExecutionView;

    open spec fn view(&self) -> ExecutionView {
        ExecutionView {
            id: self.id@,
            namespace: self.namespace@,
            flow_id: self.flow_id@,
            state: self.state@,
            tasks: match self.task_run_list {
                Some(tasks) => Some(task_views(tasks@)),
                None => None,
            },
        }
    }
}

/// The states after which an execution no longer changes.
pub open spec fn is_terminal_state(state: Seq<char>) -> bool {
    state == "SUCCESS"@ || state == "FAILED"@ || state == "KILLED"@ || state == "WARNING"@
}

/// `task:STATE` for one task run.
pub open spec fn task_label(t: TaskRunView) -> Seq<char> {
    t.task_id + ":"@ + t.state
}

/// The labels of the task runs, in order, separated by `, `.
pub open spec fn joined_labels(tasks: Seq<TaskRunView>) -> Seq<char>
    decreases tasks.len(),
{
    if tasks.len() == 0 {
        Seq::empty()
    } else if tasks.len() == 1 {
        task_label(tasks[0])
    } else {
        joined_labels(tasks.drop_last()) + ", "@ + task_label(tasks.last())
    }
}

/// The summary of an execution's task runs; empty where it has no list.
pub open spec fn summary_of(tasks: Option<Seq<TaskRunView>>) -> Seq<char> {
    match tasks {
        Some(t) => joined_labels(t),
        None => Seq::empty(),
    }
}

/// One `<task/>` line of the status element.
pub open spec fn task_line(t: TaskRunView) -> Seq<char> {
    "    <task id=\""@ + escape(t.task_id) + "\" state=\""@ + escape(t.state) + "\"/>\n"@
}

/// The `<task/>` lines of the task runs, in order.
pub open spec fn task_lines(tasks: Seq<TaskRunView>) -> Seq<char>
    decreases tasks.len(),
{
    if tasks.len() == 0 {
        Seq::empty()
    } else {
        task_lines(tasks.drop_last()) + task_line(tasks.last())
    }
}

/// The `<tasks>` block; nothing where the execution has no list.
pub open spec fn tasks_block(tasks: Option<Seq<TaskRunView>>) -> Seq<char> {
    match tasks {
        Some(t) => "  <tasks>\n"@ + task_lines(t) + "  </tasks>\n"@,
        None => Seq::empty(),
    }
}

/// A line `  <tag>escaped text</tag>`.
pub open spec fn status_line(tag: Seq<char>, text: Seq<char>) -> Seq<char> {
    "  <"@ + tag + ">"@ + escape(text) + "</"@ + tag + ">\n"@
}

/// The `<execution_status>` element.
pub open spec fn status_xml(e: ExecutionView) -> Seq<char> {
    "<execution_status>\n"@ + status_line("id"@, e.id) + status_line("namespace"@, e.namespace)
        + status_line("flow_id"@, e.flow_id) + status_line("state"@, e.state) + tasks_block(
        e.tasks,
    ) + "</execution_status>"@
}

impl ExecutionState {
    /// One of `SUCCESS`, `FAILED`, `KILLED`, `WARNING`.
    pub fn is_terminal(&self) -> (b: bool)
        ensures
            b == is_terminal_state(self@),
    {
        let v = chars_of(self.current.as_str());
        equals(&v, "SUCCESS") || equals(&v, "FAILED") || equals(&v, "KILLED") || equals(
            &v,
            "WARNING",
        )
    }

    /// Exactly `SUCCESS`.
    pub fn is_success(&self) -> (b: bool)
        ensures
            b == (self@ == "SUCCESS"@),
    {
        let v = chars_of(self.current.as_str());
        equals(&v, "SUCCESS")
    }
}

fn label_text(task: &TaskRun) -> (r: String)
    ensures
        r@ == task_label(task@),
{
    let mut out = task.task_id.clone();
    out.append(":");
    out.append(task.state.current.as_str());
    out
}

fn task_line_text(task: &TaskRun) -> (r: String)
    ensures
        r@ == task_line(task@),
{
    let id = escape_xml(task.task_id.as_str());
    let state = escape_xml(task.state.current.as_str());
    let mut out = String::from_str("    <task id=\"");
    out.append(id.as_str());
    out.append("\" state=\"");
    out.append(state.as_str());
    out.append("\"/>\n");
    out
}

fn status_line_text(tag: &str, text: &str) -> (r: String)
    ensures
        r@ == status_line(tag@, text@),
{
    let escaped = escape_xml(text);
    let mut out = String::from_str("  <");
    out.append(tag);
    out.append(">");
    out.append(escaped.as_str());
    out.append("</");
    out.append(tag);
    out.append(">\n");
    out
}

/// `task:STATE, task:STATE, ...` for the given task runs.
pub fn summarize_tasks(tasks: &Vec<TaskRun>) -> (r: String)
    ensures
        r@ == joined_labels(task_views(tasks@)),
{
    let mut out = String::new();
    let mut i: usize = 0;
    while i < tasks.len()
        invariant
            i <= tasks.len(),
            out@ == joined_labels(task_views(tasks@).take(i as int)),
        decreases tasks.len() - i,
    {
        let label = label_text(&tasks[i]);
        let ghost next = task_views(tasks@).take(i as int + 1);
        proof {
            assert(next.drop_last() == task_views(tasks@).take(i as int));
        }
        if i == 0 {
            out = label;
        } else {
            out.append(", ");
            out.append(label.as_str());
        }
        i += 1;
    }
    assert(task_views(tasks@).take(tasks.len() as int) == task_views(tasks@));
    out
}

fn task_lines_text(tasks: &Vec<TaskRun>) -> (r: String)
    ensures
        r@ == task_lines(task_views(tasks@)),
{
    let mut out = String::new();
    let mut i: usize = 0;
    while i < tasks.len()
        invariant
            i <= tasks.len(),
            out@ == task_lines(task_views(tasks@).take(i as int)),
        decreases tasks.len() - i,
    {
        let line = task_line_text(&tasks[i]);
        let ghost next = task_views(tasks@).take(i as int + 1);
        proof {
            assert(next.drop_last() == task_views(tasks@).take(i as int));
        }
        out.append(line.as_str());
        i += 1;
    }
    assert(task_views(tasks@).take(tasks.len() as int) == task_views(tasks@));
    out
}

fn tasks_block_text(tasks: &Option<Vec<TaskRun>>) -> (r: String)
    ensures
        r@ == tasks_block(
            match *tasks {
                Some(t) => Some(task_views(t@)),
                None => None,
            },
        ),
{
    match tasks {
        Some(t) => {
            let lines = task_lines_text(t);
            let mut out = String::from_str("  <tasks>\n");
            out.append(lines.as_str());
            out.append("  </tasks>\n");
            out
        },
        None => String::new(),
    }
}

impl Execution {
    /// The task runs as `task:STATE`, separated by `, `; empty where the
    /// execution has no list of task runs.
    pub fn task_summary(&self) -> (r: String)
        ensures
            r@ == summary_of(self@.tasks),
    {
        match &self.task_run_list {
            Some(tasks) => summarize_tasks(tasks),
            None => String::new(),
        }
    }

    /// The `<execution_status>` element: id, namespace, flow and state as
    /// escaped text, and one `<task/>` line for each task run.
    pub fn format_xml(&self) -> (r: String)
        ensures
            r@ == status_xml(self@),
    {
        let id = status_line_text("id", self.id.as_str());
        let namespace = status_line_text("namespace", self.namespace.as_str());
        let flow_id = status_line_text("flow_id", self.flow_id.as_str());
        let state = status_line_text("state", self.state.current.as_str());
        let tasks = tasks_block_text(&self.task_run_list);
        let mut out = String::from_str("<execution_status>\n");
        out.append(id.as_str());
        out.append(namespace.as_str());
        out.append(flow_id.as_str());
        out.append(state.as_str());
        out.append(tasks.as_str());
        out.append("</execution_status>");
        out
    }
}

/// How many log entries of an execution have been handed out.
#[derive(Debug, Clone, Copy, PartialEq, Eq)]
pub struct LogCursor {
    pub seen_log_count: usize,
}

impl LogCursor {
    /// A cursor before the first entry.
    pub fn new() -> (r: Self)
        ensures
            r.seen_log_count == 0,
    {
        LogCursor { seen_log_count: 0 }
    }

    /// Takes note of a poll that found `available` entries, and returns
    /// the index of the first that is new. The entries from that index
    /// on count as seen from now on; a poll that found fewer entries
    /// than were seen hands out nothing.
    pub fn advance(&mut self, available: usize) -> (first_new: usize)
        ensures
            first_new == if old(self).seen_log_count <= available {
                old(self).seen_log_count
            } else {
                available
            },
            final(self).seen_log_count == old(self).seen_log_count + (available - first_new),
    {
        if self.seen_log_count <= available {
            let first_new = self.seen_log_count;
            self.seen_log_count = available;
            first_new
        } else {
            available
        }
    }
}

} // verus!
