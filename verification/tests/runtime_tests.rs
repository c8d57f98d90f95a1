use agentflow_runtime::agent::{AgentConfig, AgentRequest, ExecutionStatus};
use agentflow_runtime::codec::{encode_request, parse_response};
use agentflow_runtime::coordinator::handle_message;
use agentflow_runtime::registry::ExecutionRegistry;
use agentflow_runtime::sandbox::{
    budget_for, clone_engine, execute_agent, increment_epoch, new_engine, resolve_image,
    DEFAULT_DEADLINE_TICKS, MAX_DEADLINE_TICKS, STACK_LIMIT_BYTES,
};

fn request(image: &str, timeout: Option<u64>) -> AgentRequest {
    AgentRequest {
        agent_id: String::from("a1"),
        workflow_id: String::from("w1"),
        image: String::from(image),
        input: String::from("{\"x\":1}"),
        config: AgentConfig {
            llm_provider: String::from("openai"),
            llm_model: String::from("gpt-4"),
            timeout_seconds: timeout,
            max_retries: None,
            environment: None,
        },
    }
}

#[test]
fn budget_takes_timeout_or_default_and_clamps() {
    let with = budget_for(&request("demo:v1", Some(5)).config);
    assert_eq!(with.deadline_ticks, 5);
    let without = budget_for(&request("demo:v1", None).config);
    assert_eq!(without.deadline_ticks, DEFAULT_DEADLINE_TICKS);
    let huge = budget_for(&request("demo:v1", Some(u64::MAX)).config);
    assert_eq!(huge.deadline_ticks, MAX_DEADLINE_TICKS);
    assert_eq!(without.instance_limit, 1);
    assert_eq!(without.table_limit, 1);
    assert_eq!(without.memory_count_limit, 1);
}

#[test]
fn provider_resolves_demo_scheme_only() {
    assert!(resolve_image(&String::from("demo:v1")).is_ok());
    assert!(resolve_image(&String::from("demo:spin")).is_ok());
    let err = resolve_image(&String::from("nosuch:v9")).unwrap_err();
    assert_eq!(err, "image not found in module registry");
    assert!(resolve_image(&String::from("dem")).is_err());
}

#[test]
fn demo_guest_completes_with_real_output() {
    let engine = new_engine(STACK_LIMIT_BYTES).expect("engine");
    let result = execute_agent(&engine, &request("demo:v1", Some(5)));
    assert!(result.success, "error was: {:?}", result.error);
    assert!(result.error.is_none());
    let output = result.output.expect("output present on success");
    assert_eq!(output.result, "Agent execution completed");
    assert_eq!(output.llm_calls, Some(1));
    assert!(output.artifacts.is_none());
    assert_eq!(result.metrics.llm_calls, 1);
    assert_eq!(result.metrics.memory_usage, 65536);
}

#[test]
fn unresolvable_image_fails_with_resolution_error() {
    let engine = new_engine(STACK_LIMIT_BYTES).expect("engine");
    let result = execute_agent(&engine, &request("nosuch:v9", Some(5)));
    assert!(!result.success);
    assert!(result.output.is_none());
    let error = result.error.expect("error present on failure");
    assert_eq!(error, "module resolution failed: image not found in module registry");
}

#[test]
fn handled_request_reaches_completed_and_replies() {
    let engine = new_engine(STACK_LIMIT_BYTES).expect("engine");
    let mut reg = ExecutionRegistry::new();
    assert!(reg.list().is_empty());
    let payload = encode_request(&request("demo:v1", Some(5)));
    let outcome = handle_message(&mut reg, &engine, &payload, true);
    let id = outcome.execution_id.expect("record created");
    assert_eq!(id, 0);

    let record = reg.get(id).expect("record stored");
    assert_eq!(record.status, ExecutionStatus::Completed);
    assert!(record.result.is_some());
    assert!(record.error.is_none());
    assert!(record.completed_at.unwrap() >= record.started_at);
    assert_eq!(reg.list().len(), 1);
    assert_eq!(reg.list()[0].id, 0);

    let reply = outcome.reply.expect("reply owed");
    let response = parse_response(&reply).expect("reply is canonical");
    assert_eq!(response.execution_id, 0);
    assert_eq!(response.agent_id, "a1");
    assert_eq!(response.status, ExecutionStatus::Completed);
    assert!(response.result.is_some());
    assert!(response.error.is_none());
}

#[test]
fn failed_request_replies_with_error_projection() {
    let engine = new_engine(STACK_LIMIT_BYTES).expect("engine");
    let mut reg = ExecutionRegistry::new();
    let payload = encode_request(&request("nosuch:v9", Some(5)));
    let outcome = handle_message(&mut reg, &engine, &payload, true);
    let id = outcome.execution_id.expect("record created");
    let record = reg.get(id).expect("record stored");
    assert_eq!(record.status, ExecutionStatus::Failed);
    assert!(record.result.is_none());
    assert!(record.error.as_deref().unwrap().starts_with("module resolution failed: "));

    let reply = outcome.reply.expect("reply owed");
    let response = parse_response(&reply).expect("reply is canonical");
    assert_eq!(response.status, ExecutionStatus::Failed);
    assert!(response.error.as_deref().unwrap().starts_with("module resolution failed: "));
}

#[test]
fn no_reply_destination_means_no_reply() {
    let engine = new_engine(STACK_LIMIT_BYTES).expect("engine");
    let mut reg = ExecutionRegistry::new();
    let payload = encode_request(&request("demo:v1", None));
    let outcome = handle_message(&mut reg, &engine, &payload, false);
    assert!(outcome.execution_id.is_some());
    assert!(outcome.reply.is_none());
}

#[test]
fn malformed_payload_leaves_no_trace_and_blocks_nothing() {
    let engine = new_engine(STACK_LIMIT_BYTES).expect("engine");
    let mut reg = ExecutionRegistry::new();

    let garbage: Vec<u8> = vec![0xde, 0xad, 0xbe, 0xef];
    let outcome = handle_message(&mut reg, &engine, &garbage, true);
    assert!(outcome.execution_id.is_none());
    assert!(outcome.reply.is_none());
    assert_eq!(reg.len(), 0);

    let payload = encode_request(&request("demo:v1", Some(5)));
    let outcome = handle_message(&mut reg, &engine, &payload, false);
    assert_eq!(outcome.execution_id, Some(0));
    assert_eq!(reg.len(), 1);
    assert_eq!(reg.get(0).unwrap().status, ExecutionStatus::Completed);
}

#[test]
fn identical_agents_get_independent_records() {
    let engine = new_engine(STACK_LIMIT_BYTES).expect("engine");
    let mut reg = ExecutionRegistry::new();
    let good = encode_request(&request("demo:v1", Some(5)));
    let bad = encode_request(&request("nosuch:v9", Some(5)));
    let first = handle_message(&mut reg, &engine, &good, false);
    let second = handle_message(&mut reg, &engine, &bad, false);
    let a = first.execution_id.unwrap();
    let b = second.execution_id.unwrap();
    assert_ne!(a, b);
    assert_eq!(reg.get(a).unwrap().status, ExecutionStatus::Completed);
    assert_eq!(reg.get(b).unwrap().status, ExecutionStatus::Failed);
    assert_eq!(reg.get(a).unwrap().request.agent_id, "a1");
    assert_eq!(reg.get(b).unwrap().request.agent_id, "a1");
}

#[test]
fn spinning_guest_times_out_within_deadline() {
    let engine = new_engine(STACK_LIMIT_BYTES).expect("engine");
    let req = request("demo:spin", Some(1));
    let runtime = tokio::runtime::Builder::new_multi_thread()
        .worker_threads(2)
        .enable_all()
        .build()
        .expect("runtime");
    let run_engine = clone_engine(&engine);
    let started = std::time::Instant::now();
    let result = runtime.block_on(async move {
        let ticker_engine = clone_engine(&run_engine);
        let ticker = tokio::spawn(async move {
            loop {
                tokio::time::sleep(std::time::Duration::from_millis(50)).await;
                increment_epoch(&ticker_engine);
            }
        });
        let run = tokio::task::spawn_blocking(move || execute_agent(&run_engine, &req))
            .await
            .expect("sandboxed run finishes");
        ticker.abort();
        run
    });
    assert!(!result.success);
    assert!(result.output.is_none());
    let error = result.error.expect("error present on failure");
    assert_eq!(error, "timeout: deadline exceeded");
    assert!(started.elapsed() < std::time::Duration::from_secs(10));
}
