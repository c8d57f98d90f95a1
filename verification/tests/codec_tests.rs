use agentflow_runtime::agent::{
    AgentConfig, AgentOutput, AgentRequest, AgentResponse, AgentResult, ExecutionMetrics,
    ExecutionStatus,
};
use agentflow_runtime::codec::{encode_request, encode_response, parse_request, parse_response};

fn sample_config() -> AgentConfig {
    AgentConfig {
        llm_provider: String::from("openai"),
        llm_model: String::from("gpt-4"),
        timeout_seconds: Some(5),
        max_retries: Some(3),
        environment: Some(vec![
            (String::from("HOME"), String::from("/tmp")),
            (String::from("MODE"), String::from("fast")),
        ]),
    }
}

fn sample_request() -> AgentRequest {
    AgentRequest {
        agent_id: String::from("a1"),
        workflow_id: String::from("w1"),
        image: String::from("demo:v1"),
        input: String::from("{\"x\":1}"),
        config: sample_config(),
    }
}

#[test]
fn request_round_trip_reproduces_every_field() {
    let req = sample_request();
    let bytes = encode_request(&req);
    let back = parse_request(&bytes).expect("canonical bytes must parse");
    assert_eq!(back.agent_id, "a1");
    assert_eq!(back.workflow_id, "w1");
    assert_eq!(back.image, "demo:v1");
    assert_eq!(back.input, "{\"x\":1}");
    assert_eq!(back.config.llm_provider, "openai");
    assert_eq!(back.config.llm_model, "gpt-4");
    assert_eq!(back.config.timeout_seconds, Some(5));
    assert_eq!(back.config.max_retries, Some(3));
    let env = back.config.environment.expect("environment kept");
    assert_eq!(env.len(), 2);
    assert_eq!(env[0].0, "HOME");
    assert_eq!(env[0].1, "/tmp");
    assert_eq!(env[1].0, "MODE");
    assert_eq!(env[1].1, "fast");
}

#[test]
fn request_round_trip_with_absent_options() {
    let req = AgentRequest {
        agent_id: String::from("solo"),
        workflow_id: String::new(),
        image: String::from("demo:v2"),
        input: String::new(),
        config: AgentConfig {
            llm_provider: String::new(),
            llm_model: String::new(),
            timeout_seconds: None,
            max_retries: None,
            environment: None,
        },
    };
    let bytes = encode_request(&req);
    let back = parse_request(&bytes).expect("canonical bytes must parse");
    assert_eq!(back.agent_id, "solo");
    assert_eq!(back.workflow_id, "");
    assert_eq!(back.image, "demo:v2");
    assert_eq!(back.input, "");
    assert_eq!(back.config.timeout_seconds, None);
    assert_eq!(back.config.max_retries, None);
    assert!(back.config.environment.is_none());
}

#[test]
fn request_round_trip_keeps_non_ascii_text() {
    let mut req = sample_request();
    req.input = String::from("caf\u{e9} \u{1f600} \u{3053}\u{3093}");
    req.workflow_id = String::from("\u{fc}ber");
    let bytes = encode_request(&req);
    let back = parse_request(&bytes).expect("canonical bytes must parse");
    assert_eq!(back.input, "caf\u{e9} \u{1f600} \u{3053}\u{3093}");
    assert_eq!(back.workflow_id, "\u{fc}ber");
}

#[test]
fn encode_request_emits_exact_canonical_bytes() {
    let req = AgentRequest {
        agent_id: String::from("a"),
        workflow_id: String::new(),
        image: String::from("i"),
        input: String::new(),
        config: AgentConfig {
            llm_provider: String::new(),
            llm_model: String::new(),
            timeout_seconds: None,
            max_retries: None,
            environment: None,
        },
    };
    let bytes = encode_request(&req);
    let mut expected: Vec<u8> = Vec::new();
    expected.extend_from_slice(&1u64.to_le_bytes());
    expected.push(b'a');
    expected.extend_from_slice(&0u64.to_le_bytes());
    expected.extend_from_slice(&1u64.to_le_bytes());
    expected.push(b'i');
    expected.extend_from_slice(&0u64.to_le_bytes());
    expected.extend_from_slice(&0u64.to_le_bytes());
    expected.extend_from_slice(&0u64.to_le_bytes());
    expected.push(0);
    expected.push(0);
    expected.push(0);
    assert_eq!(bytes, expected);
}

#[test]
fn malformed_payload_is_rejected() {
    assert!(parse_request(&vec![0xff, 0x01, 0x02]).is_none());
    assert!(parse_request(&Vec::new()).is_none());
}

#[test]
fn empty_agent_id_is_rejected() {
    let mut req = sample_request();
    req.agent_id = String::new();
    let bytes = encode_request(&req);
    assert!(parse_request(&bytes).is_none());
}

#[test]
fn empty_image_is_rejected() {
    let mut req = sample_request();
    req.image = String::new();
    let bytes = encode_request(&req);
    assert!(parse_request(&bytes).is_none());
}

#[test]
fn zero_timeout_is_rejected() {
    let mut req = sample_request();
    req.config.timeout_seconds = Some(0);
    let bytes = encode_request(&req);
    assert!(parse_request(&bytes).is_none());
}

#[test]
fn trailing_bytes_are_rejected() {
    let mut bytes = encode_request(&sample_request());
    bytes.push(0);
    assert!(parse_request(&bytes).is_none());
}

#[test]
fn response_round_trip_completed() {
    let resp = AgentResponse {
        execution_id: 7,
        agent_id: String::from("a1"),
        status: ExecutionStatus::Completed,
        result: Some(AgentResult {
            success: true,
            output: Some(AgentOutput {
                result: String::from("done"),
                llm_calls: Some(2),
                artifacts: Some(vec![String::from("art-1"), String::from("art-2")]),
            }),
            error: None,
            metrics: ExecutionMetrics {
                memory_usage: 65536,
                cpu_time: 12,
                llm_calls: 2,
                execution_time_ms: 12,
            },
        }),
        error: None,
        started_at: 100,
        completed_at: Some(101),
    };
    let bytes = encode_response(&resp);
    let back = parse_response(&bytes).expect("canonical bytes must parse");
    assert_eq!(back.execution_id, 7);
    assert_eq!(back.agent_id, "a1");
    assert_eq!(back.status, ExecutionStatus::Completed);
    assert_eq!(back.started_at, 100);
    assert_eq!(back.completed_at, Some(101));
    assert!(back.error.is_none());
    let res = back.result.expect("result kept");
    assert!(res.success);
    assert!(res.error.is_none());
    assert_eq!(
        res.metrics,
        ExecutionMetrics { memory_usage: 65536, cpu_time: 12, llm_calls: 2, execution_time_ms: 12 }
    );
    let out = res.output.expect("output kept");
    assert_eq!(out.result, "done");
    assert_eq!(out.llm_calls, Some(2));
    assert_eq!(out.artifacts, Some(vec![String::from("art-1"), String::from("art-2")]));
}

#[test]
fn response_round_trip_failed() {
    let resp = AgentResponse {
        execution_id: 1,
        agent_id: String::from("a2"),
        status: ExecutionStatus::Failed,
        result: None,
        error: Some(String::from("timeout: deadline exceeded")),
        started_at: 50,
        completed_at: Some(55),
    };
    let bytes = encode_response(&resp);
    let back = parse_response(&bytes).expect("canonical bytes must parse");
    assert_eq!(back.execution_id, 1);
    assert_eq!(back.status, ExecutionStatus::Failed);
    assert!(back.result.is_none());
    assert_eq!(back.error.as_deref(), Some("timeout: deadline exceeded"));
    assert_eq!(back.completed_at, Some(55));
}

#[test]
fn malformed_response_is_rejected() {
    assert!(parse_response(&vec![9, 9, 9]).is_none());
    let mut bytes = encode_response(&AgentResponse {
        execution_id: 0,
        agent_id: String::from("a"),
        status: ExecutionStatus::Pending,
        result: None,
        error: None,
        started_at: 0,
        completed_at: None,
    });
    bytes.push(1);
    assert!(parse_response(&bytes).is_none());
}

#[test]
fn duplicate_environment_keys_are_rejected() {
    let mut req = sample_request();
    req.config.environment = Some(vec![
        (String::from("KEY"), String::from("a")),
        (String::from("KEY"), String::from("b")),
    ]);
    let bytes = encode_request(&req);
    assert!(parse_request(&bytes).is_none());
}
