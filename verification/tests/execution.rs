use bitter_truth::execution::{summarize_tasks, Execution, ExecutionState, TaskRun};

fn run(id: &str, task: &str, state: &str) -> TaskRun {
    TaskRun { id: id.into(), task_id: task.into(), state: ExecutionState { current: state.into() } }
}

#[test]
fn test_execution_state_terminal() {
    assert!(ExecutionState { current: "SUCCESS".into() }.is_terminal());
    assert!(ExecutionState { current: "FAILED".into() }.is_terminal());
    assert!(ExecutionState { current: "KILLED".into() }.is_terminal());
    assert!(!ExecutionState { current: "RUNNING".into() }.is_terminal());
    assert!(!ExecutionState { current: "CREATED".into() }.is_terminal());
}

#[test]
fn warning_is_terminal_and_case_matters() {
    assert!(ExecutionState { current: "WARNING".into() }.is_terminal());
    assert!(!ExecutionState { current: "success".into() }.is_terminal());
    assert!(!ExecutionState { current: "".into() }.is_terminal());
    assert!(!ExecutionState { current: "SUCCESS ".into() }.is_terminal());
}

#[test]
fn test_execution_state_success() {
    assert!(ExecutionState { current: "SUCCESS".into() }.is_success());
    assert!(!ExecutionState { current: "FAILED".into() }.is_success());
    assert!(!ExecutionState { current: "RUNNING".into() }.is_success());
}

#[test]
fn test_execution_task_summary() {
    let exec = Execution {
        id: "exec-1".into(),
        namespace: "test".into(),
        flow_id: "flow-1".into(),
        state: ExecutionState { current: "RUNNING".into() },
        task_run_list: Some(vec![
            TaskRun {
                id: "run-1".into(),
                task_id: "task-a".into(),
                state: ExecutionState { current: "SUCCESS".into() },
            },
            TaskRun {
                id: "run-2".into(),
                task_id: "task-b".into(),
                state: ExecutionState { current: "RUNNING".into() },
            },
        ]),
    };

    let summary = exec.task_summary();
    assert!(summary.contains("task-a:SUCCESS"));
    assert!(summary.contains("task-b:RUNNING"));
}

#[test]
fn task_summary_exact() {
    let mut exec = Execution {
        id: "e".into(),
        namespace: "n".into(),
        flow_id: "f".into(),
        state: ExecutionState { current: "RUNNING".into() },
        task_run_list: None,
    };
    assert_eq!(exec.task_summary(), "");
    exec.task_run_list = Some(vec![]);
    assert_eq!(exec.task_summary(), "");
    exec.task_run_list = Some(vec![run("1", "a", "SUCCESS")]);
    assert_eq!(exec.task_summary(), "a:SUCCESS");
    exec.task_run_list =
        Some(vec![run("1", "a", "SUCCESS"), run("2", "b", "RUNNING"), run("3", "c", "FAILED")]);
    assert_eq!(exec.task_summary(), "a:SUCCESS, b:RUNNING, c:FAILED");
    assert_eq!(
        summarize_tasks(&vec![run("1", "x", "KILLED"), run("2", "y", "")]),
        "x:KILLED, y:"
    );
}

#[test]
fn test_execution_format_xml() {
    let exec = Execution {
        id: "exec-abc".into(),
        namespace: "bitter".into(),
        flow_id: "contract-loop".into(),
        state: ExecutionState { current: "FAILED".into() },
        task_run_list: Some(vec![TaskRun {
            id: "run-1".into(),
            task_id: "generate".into(),
            state: ExecutionState { current: "FAILED".into() },
        }]),
    };

    let xml = exec.format_xml();
    assert!(xml.contains("<execution_status>"));
    assert!(xml.contains("<id>exec-abc</id>"));
    assert!(xml.contains("<state>FAILED</state>"));
    assert!(xml.contains("<task id=\"generate\" state=\"FAILED\"/>"));
}

#[test]
fn execution_format_xml_exact() {
    let exec = Execution {
        id: "exec<1>".into(),
        namespace: "a&b".into(),
        flow_id: "flow".into(),
        state: ExecutionState { current: "RUNNING".into() },
        task_run_list: Some(vec![run("r1", "t\"1\"", "SUCCESS"), run("r2", "t2", "RUNNING")]),
    };
    assert_eq!(
        exec.format_xml(),
        "<execution_status>\n  <id>exec&lt;1&gt;</id>\n  <namespace>a&amp;b</namespace>\n  <flow_id>flow</flow_id>\n  <state>RUNNING</state>\n  <tasks>\n    <task id=\"t&quot;1&quot;\" state=\"SUCCESS\"/>\n    <task id=\"t2\" state=\"RUNNING\"/>\n  </tasks>\n</execution_status>"
    );
    let bare = Execution {
        id: "e".into(),
        namespace: "n".into(),
        flow_id: "f".into(),
        state: ExecutionState { current: "CREATED".into() },
        task_run_list: None,
    };
    assert_eq!(
        bare.format_xml(),
        "<execution_status>\n  <id>e</id>\n  <namespace>n</namespace>\n  <flow_id>f</flow_id>\n  <state>CREATED</state>\n</execution_status>"
    );
}
