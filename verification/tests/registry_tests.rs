use agentflow_runtime::agent::{
    AgentConfig, AgentExecution, AgentOutput, AgentRequest, AgentResult, ExecutionMetrics,
    ExecutionStatus,
};
use agentflow_runtime::registry::{ExecutionRegistry, RegistryError};

fn request(agent: &str) -> AgentRequest {
    AgentRequest {
        agent_id: String::from(agent),
        workflow_id: String::from("w"),
        image: String::from("demo:v1"),
        input: String::from("{}"),
        config: AgentConfig {
            llm_provider: String::from("p"),
            llm_model: String::from("m"),
            timeout_seconds: None,
            max_retries: None,
            environment: None,
        },
    }
}

fn success_result() -> AgentResult {
    AgentResult {
        success: true,
        output: Some(AgentOutput {
            result: String::from("ok"),
            llm_calls: Some(1),
            artifacts: None,
        }),
        error: None,
        metrics: ExecutionMetrics { memory_usage: 1, cpu_time: 2, llm_calls: 1, execution_time_ms: 2 },
    }
}

#[test]
fn empty_registry_lists_nothing() {
    let reg = ExecutionRegistry::new();
    assert_eq!(reg.len(), 0);
    assert!(reg.list().is_empty());
    assert_eq!(reg.count_running(), 0);
    assert_eq!(reg.count_completed(), 0);
}

#[test]
fn completed_record_holds_result_and_ordered_stamps() {
    let mut reg = ExecutionRegistry::new();
    let id = reg.insert_pending(request("a1"), 100);
    assert_eq!(id, 0);
    let rec = reg.get(id).unwrap();
    assert_eq!(rec.status, ExecutionStatus::Pending);
    assert!(rec.result.is_none() && rec.error.is_none() && rec.completed_at.is_none());

    assert_eq!(reg.mark_running(id, 101), Ok(()));
    let rec = reg.get(id).unwrap();
    assert_eq!(rec.status, ExecutionStatus::Running);
    assert!(rec.is_running());

    assert_eq!(reg.complete(id, success_result(), 105), Ok(()));
    let rec = reg.get(id).unwrap();
    assert_eq!(rec.status, ExecutionStatus::Completed);
    assert!(rec.is_completed());
    assert!(rec.result.is_some());
    assert!(rec.error.is_none());
    assert_eq!(rec.started_at, 101);
    assert_eq!(rec.completed_at, Some(105));
    assert!(rec.completed_at.unwrap() >= rec.started_at);
}

#[test]
fn completion_stamp_never_precedes_start() {
    let mut reg = ExecutionRegistry::new();
    let id = reg.insert_pending(request("a1"), 100);
    assert_eq!(reg.mark_running(id, 200), Ok(()));
    assert_eq!(reg.fail(id, String::from("boom"), 150), Ok(()));
    let rec = reg.get(id).unwrap();
    assert_eq!(rec.completed_at, Some(200));
    assert!(rec.completed_at.unwrap() >= rec.started_at);
}

#[test]
fn failed_record_holds_error_only() {
    let mut reg = ExecutionRegistry::new();
    let id = reg.insert_pending(request("a1"), 10);
    assert_eq!(reg.mark_running(id, 11), Ok(()));
    assert_eq!(reg.fail(id, String::from("invalid module: bad magic"), 12), Ok(()));
    let rec = reg.get(id).unwrap();
    assert_eq!(rec.status, ExecutionStatus::Failed);
    assert!(rec.result.is_none());
    assert_eq!(rec.error.as_deref(), Some("invalid module: bad magic"));
}

#[test]
fn cancelled_record_is_terminal_without_result_or_error() {
    let mut reg = ExecutionRegistry::new();
    let id = reg.insert_pending(request("a1"), 10);
    assert_eq!(reg.mark_running(id, 11), Ok(()));
    assert_eq!(reg.cancel(id, 13), Ok(()));
    let rec = reg.get(id).unwrap();
    assert_eq!(rec.status, ExecutionStatus::Cancelled);
    assert!(rec.result.is_none() && rec.error.is_none());
    assert_eq!(rec.completed_at, Some(13));
}

#[test]
fn unknown_id_reports_not_found() {
    let mut reg = ExecutionRegistry::new();
    assert_eq!(reg.mark_running(5, 1), Err(RegistryError::NotFound));
    assert_eq!(reg.complete(0, success_result(), 1), Err(RegistryError::NotFound));
    assert_eq!(reg.fail(3, String::from("x"), 1), Err(RegistryError::NotFound));
    assert_eq!(reg.cancel(9, 1), Err(RegistryError::NotFound));
    assert!(reg.get(0).is_none());
}

#[test]
fn transitions_are_one_way() {
    let mut reg = ExecutionRegistry::new();
    let id = reg.insert_pending(request("a1"), 10);
    assert_eq!(reg.complete(id, success_result(), 11), Err(RegistryError::InvalidTransition));
    assert_eq!(reg.mark_running(id, 11), Ok(()));
    assert_eq!(reg.mark_running(id, 12), Err(RegistryError::InvalidTransition));
    assert_eq!(reg.complete(id, success_result(), 13), Ok(()));
    assert_eq!(reg.fail(id, String::from("late"), 14), Err(RegistryError::InvalidTransition));
    assert_eq!(reg.cancel(id, 14), Err(RegistryError::InvalidTransition));
    let rec = reg.get(id).unwrap();
    assert_eq!(rec.status, ExecutionStatus::Completed);
}

#[test]
fn concurrent_inserts_get_distinct_ids() {
    let mut reg = ExecutionRegistry::new();
    let a = reg.insert_pending(request("same-agent"), 1);
    let b = reg.insert_pending(request("same-agent"), 1);
    assert_ne!(a, b);
    assert_eq!(a, 0);
    assert_eq!(b, 1);
    assert_eq!(reg.get(a).unwrap().request.agent_id, "same-agent");
    assert_eq!(reg.get(b).unwrap().request.agent_id, "same-agent");
    assert_eq!(reg.get(a).unwrap().id, 0);
    assert_eq!(reg.get(b).unwrap().id, 1);
}

#[test]
fn counts_track_running_and_terminal_records() {
    let mut reg = ExecutionRegistry::new();
    let a = reg.insert_pending(request("a"), 1);
    let b = reg.insert_pending(request("b"), 1);
    let c = reg.insert_pending(request("c"), 1);
    assert_eq!(reg.mark_running(a, 2), Ok(()));
    assert_eq!(reg.mark_running(b, 2), Ok(()));
    assert_eq!(reg.mark_running(c, 2), Ok(()));
    assert_eq!(reg.count_running(), 3);
    assert_eq!(reg.complete(a, success_result(), 3), Ok(()));
    assert_eq!(reg.fail(b, String::from("x"), 3), Ok(()));
    assert_eq!(reg.count_running(), 1);
    assert_eq!(reg.count_completed(), 2);
    assert_eq!(reg.len(), 3);
    assert_eq!(reg.list().len(), 3);
}

#[test]
fn duration_uses_completion_stamp_when_terminal() {
    let mut rec = AgentExecution::new(request("a"), 0, 5);
    rec.start(10);
    rec.complete_error(String::from("x"), 12);
    assert_eq!(rec.duration_ms(99), Some(2000));
}

#[test]
fn duration_uses_clock_while_running() {
    let mut rec = AgentExecution::new(request("a"), 0, 5);
    rec.start(7);
    assert_eq!(rec.duration_ms(9), Some(2000));
    assert_eq!(rec.duration_ms(7), Some(0));
    assert_eq!(rec.duration_ms(3), Some(0));
}

#[test]
fn metrics_zeroed_carries_only_elapsed_time() {
    assert_eq!(
        ExecutionMetrics::zeroed(5),
        ExecutionMetrics { memory_usage: 0, cpu_time: 5, llm_calls: 0, execution_time_ms: 5 }
    );
}

#[test]
fn response_projection_copies_the_record() {
    let mut rec = AgentExecution::new(request("a9"), 4, 5);
    rec.start(10);
    rec.complete_error(String::from("execution trap: Unreachable"), 12);
    let resp = rec.to_response();
    assert_eq!(resp.execution_id, 4);
    assert_eq!(resp.agent_id, "a9");
    assert_eq!(resp.status, ExecutionStatus::Failed);
    assert!(resp.result.is_none());
    assert_eq!(resp.error.as_deref(), Some("execution trap: Unreachable"));
    assert_eq!(resp.started_at, 10);
    assert_eq!(resp.completed_at, Some(12));
}

#[test]
fn cancel_all_touches_only_non_terminal_records() {
    let mut reg = ExecutionRegistry::new();
    let a = reg.insert_pending(request("a"), 1);
    let b = reg.insert_pending(request("b"), 1);
    let c = reg.insert_pending(request("c"), 1);
    assert_eq!(reg.mark_running(a, 2), Ok(()));
    assert_eq!(reg.complete(a, success_result(), 3), Ok(()));
    assert_eq!(reg.mark_running(b, 2), Ok(()));
    reg.cancel_all(9);
    assert_eq!(reg.get(a).unwrap().status, ExecutionStatus::Completed);
    assert_eq!(reg.get(a).unwrap().completed_at, Some(3));
    assert_eq!(reg.get(b).unwrap().status, ExecutionStatus::Cancelled);
    assert_eq!(reg.get(b).unwrap().completed_at, Some(9));
    assert_eq!(reg.get(c).unwrap().status, ExecutionStatus::Cancelled);
    assert_eq!(reg.count_completed(), 3);
    assert_eq!(reg.count_running(), 0);
}
