//! Data model of one agent execution: the request that spawns it, the
//! result the sandbox reports, and the record that tracks it from
//! acceptance to a terminal state.
use vstd::prelude::*;

verus! {

/// Lifecycle state of an execution record.  Transitions are strictly
/// `Pending -> Running -> {Completed | Failed | Cancelled}`; a record in
/// a terminal state is never mutated again.
#[derive(Clone, Copy, Debug, PartialEq, Eq, Structural)]
pub enum ExecutionStatus {
    Pending,
    Running,
    Completed,
    Failed,
    Cancelled,
}

impl ExecutionStatus {
    /// A terminal status ends the record's lifecycle.
    pub open spec fn spec_is_terminal(self) -> bool {
        self is Completed || self is Failed || self is Cancelled
    }

    #[verifier::when_used_as_spec(spec_is_terminal)]
    pub fn is_terminal(self) -> (r: bool)
        ensures
            r == self.spec_is_terminal(),
    {
        match self {
            ExecutionStatus::Completed => true,
            ExecutionStatus::Failed => true,
            ExecutionStatus::Cancelled => true,
            _ => false,
        }
    }
}

/// Resource figures of one sandboxed run.
#[derive(Clone, Copy, Debug, PartialEq, Eq, Structural)]
pub struct ExecutionMetrics {
    pub memory_usage: u64,
    pub cpu_time: u64,
    pub llm_calls: u32,
    pub execution_time_ms: u64,
}

impl ExecutionMetrics {
    /// Metrics of a run that never reached guest code.
    pub fn zeroed(elapsed_ms: u64) -> (r: ExecutionMetrics)
        ensures
            r == (ExecutionMetrics {
                memory_usage: 0,
                cpu_time: elapsed_ms,
                llm_calls: 0,
                execution_time_ms: elapsed_ms,
            }),
    {
        ExecutionMetrics { memory_usage: 0, cpu_time: elapsed_ms, llm_calls: 0, execution_time_ms: elapsed_ms }
    }
}

/// Mathematical model of [`AgentOutput`].
#[verifier::ext_equal]
pub ghost struct OutputV {
    pub result: Seq<char>,
    pub llm_calls: Option<u32>,
    pub artifacts: Option<Seq<Seq<char>>>,
}

/// Structured output a guest reports on success: a free-text result,
/// an optional count of delegated LLM calls, and optional artifact
/// identifiers.
#[derive(Clone, Debug)]
pub struct AgentOutput {
    pub result: String,
    pub llm_calls: Option<u32>,
    pub artifacts: Option<Vec<String>>,
}

impl View for AgentOutput {
    type V = OutputV;

    open spec fn view(&self) -> OutputV {
        OutputV {
            result: self.result@,
            llm_calls: self.llm_calls,
            artifacts: match self.artifacts {
                Option::Some(v) => Option::Some(v.deep_view()),
                Option::None => Option::None,
            },
        }
    }
}

impl AgentOutput {
    /// A field-for-field copy with the same model.
    pub fn duplicate(&self) -> (r: AgentOutput)
        ensures
            r@ == self@,
    {
        let artifacts: Option<Vec<String>> = match &self.artifacts {
            Option::Some(v) => {
                let mut out: Vec<String> = Vec::new();
                let mut i: usize = 0;
                while i < v.len()
                    invariant
                        i <= v.len(),
                        out.len() == i,
                        forall|j: int| 0 <= j < i ==> out@[j]@ == v@[j]@,
                    decreases v.len() - i,
                {
                    out.push(v[i].clone());
                    i += 1;
                }
                proof {
                    assert(out.deep_view() =~= v.deep_view());
                }
                Option::Some(out)
            },
            Option::None => Option::None,
        };
        let r = AgentOutput { result: self.result.clone(), llm_calls: self.llm_calls, artifacts };
        proof {
            assert(r@ =~= self@);
        }
        r
    }
}

/// Mathematical model of [`AgentResult`].
#[verifier::ext_equal]
pub ghost struct ResultV {
    pub success: bool,
    pub output: Option<OutputV>,
    pub error: Option<Seq<char>>,
    pub metrics: ExecutionMetrics,
}

impl ResultV {
    /// On success only the output is present; on failure only the error.
    pub open spec fn wf(self) -> bool {
        &&& self.success ==> self.output is Some && self.error is None
        &&& !self.success ==> self.output is None && self.error is Some
    }
}

/// What one sandboxed run reports back: a success flag, the guest's
/// structured output or a classified error, and metrics.  Guest
/// misbehavior is always reported as data, never as a host fault.
#[derive(Clone, Debug)]
pub struct AgentResult {
    pub success: bool,
    pub output: Option<AgentOutput>,
    pub error: Option<String>,
    pub metrics: ExecutionMetrics,
}

impl View for AgentResult {
    type V = ResultV;

    open spec fn view(&self) -> ResultV {
        ResultV {
            success: self.success,
            output: match self.output {
                Option::Some(o) => Option::Some(o@),
                Option::None => Option::None,
            },
            error: match self.error {
                Option::Some(e) => Option::Some(e@),
                Option::None => Option::None,
            },
            metrics: self.metrics,
        }
    }
}

impl AgentResult {
    /// A field-for-field copy with the same model.
    pub fn duplicate(&self) -> (r: AgentResult)
        ensures
            r@ == self@,
    {
        let output = match &self.output {
            Option::Some(o) => Option::Some(o.duplicate()),
            Option::None => Option::None,
        };
        let error = match &self.error {
            Option::Some(e) => Option::Some(e.clone()),
            Option::None => Option::None,
        };
        let r = AgentResult { success: self.success, output, error, metrics: self.metrics };
        proof {
            assert(r@ =~= self@);
        }
        r
    }
}

/// Mathematical model of [`AgentConfig`].
#[verifier::ext_equal]
pub ghost struct ConfigV {
    pub llm_provider: Seq<char>,
    pub llm_model: Seq<char>,
    pub timeout_seconds: Option<u64>,
    pub max_retries: Option<u32>,
    pub environment: Option<Seq<(Seq<char>, Seq<char>)>>,
}

/// The environment names a map: no key occurs twice.
pub open spec fn env_keys_unique(l: Seq<(Seq<char>, Seq<char>)>) -> bool {
    forall|i: int, j: int| 0 <= i < j < l.len() ==> l[i].0 != l[j].0
}

impl ConfigV {
    /// A timeout, when present, is positive, and the environment,
    /// when present, has pairwise distinct keys.
    pub open spec fn wf(self) -> bool {
        &&& self.timeout_seconds matches Some(t) ==> t > 0
        &&& self.environment matches Some(l) ==> env_keys_unique(l)
    }
}

/// Whether every environment key occurs only once.
pub fn env_keys_distinct(v: &Vec<(String, String)>) -> (r: bool)
    ensures
        r == env_keys_unique(v.deep_view()),
{
    let ghost l = v.deep_view();
    if v.len() <= 1 {
        return true;
    }
    let mut i: usize = 1;
    while i < v.len()
        invariant
            l == v.deep_view(),
            l.len() == v@.len(),
            1 <= i <= v@.len(),
            forall|a: int, b: int| 0 <= a < b < i ==> l[a].0 != l[b].0,
        decreases v@.len() - i,
    {
        let mut j: usize = 0;
        while j < i
            invariant
                l == v.deep_view(),
                l.len() == v@.len(),
                j <= i < v@.len(),
                forall|a: int| 0 <= a < j ==> l[a].0 != l[i as int].0,
                forall|a: int, b: int| 0 <= a < b < i ==> l[a].0 != l[b].0,
            decreases i - j,
        {
            if v[j].0.eq(&v[i].0) {
                proof {
                    assert(l[j as int].0 == l[i as int].0);
                    assert(!env_keys_unique(l));
                }
                return false;
            }
            j += 1;
        }
        i += 1;
    }
    true
}

/// Per-request configuration block.
#[derive(Clone, Debug)]
pub struct AgentConfig {
    pub llm_provider: String,
    pub llm_model: String,
    pub timeout_seconds: Option<u64>,
    pub max_retries: Option<u32>,
    pub environment: Option<Vec<(String, String)>>,
}

impl View for AgentConfig {
    type V = ConfigV;

    open spec fn view(&self) -> ConfigV {
        ConfigV {
            llm_provider: self.llm_provider@,
            llm_model: self.llm_model@,
            timeout_seconds: self.timeout_seconds,
            max_retries: self.max_retries,
            environment: match self.environment {
                Option::Some(v) => Option::Some(v.deep_view()),
                Option::None => Option::None,
            },
        }
    }
}

impl AgentConfig {
    /// A field-for-field copy with the same model.
    pub fn duplicate(&self) -> (r: AgentConfig)
        ensures
            r@ == self@,
    {
        let environment: Option<Vec<(String, String)>> = match &self.environment {
            Option::Some(v) => {
                let mut out: Vec<(String, String)> = Vec::new();
                let mut i: usize = 0;
                while i < v.len()
                    invariant
                        i <= v.len(),
                        out.len() == i,
                        forall|j: int| 0 <= j < i ==> out@[j].0@ == v@[j].0@ && out@[j].1@ == v@[j].1@,
                    decreases v.len() - i,
                {
                    out.push((v[i].0.clone(), v[i].1.clone()));
                    i += 1;
                }
                proof {
                    assert(out.deep_view() =~= v.deep_view());
                }
                Option::Some(out)
            },
            Option::None => Option::None,
        };
        let r = AgentConfig {
            llm_provider: self.llm_provider.clone(),
            llm_model: self.llm_model.clone(),
            timeout_seconds: self.timeout_seconds,
            max_retries: self.max_retries,
            environment,
        };
        proof {
            assert(r@ =~= self@);
        }
        r
    }
}

/// Mathematical model of [`AgentRequest`].
#[verifier::ext_equal]
pub ghost struct RequestV {
    pub agent_id: Seq<char>,
    pub workflow_id: Seq<char>,
    pub image: Seq<char>,
    pub input: Seq<char>,
    pub config: ConfigV,
}

impl RequestV {
    /// A request is accepted only with a non-empty agent identifier, a
    /// non-empty image reference, and a positive timeout when one is
    /// given.
    pub open spec fn valid(self) -> bool {
        &&& self.agent_id.len() > 0
        &&& self.image.len() > 0
        &&& self.config.wf()
    }
}

/// An immutable execution request: identifiers, the image reference
/// that names the guest bytecode, the opaque input payload in its
/// canonical text form, and the configuration block.
#[derive(Clone, Debug)]
pub struct AgentRequest {
    pub agent_id: String,
    pub workflow_id: String,
    pub image: String,
    pub input: String,
    pub config: AgentConfig,
}

impl View for AgentRequest {
    type V = RequestV;

    open spec fn view(&self) -> RequestV {
        RequestV {
            agent_id: self.agent_id@,
            workflow_id: self.workflow_id@,
            image: self.image@,
            input: self.input@,
            config: self.config@,
        }
    }
}

impl AgentRequest {
    /// A field-for-field copy with the same model.
    pub fn duplicate(&self) -> (r: AgentRequest)
        ensures
            r@ == self@,
    {
        let r = AgentRequest {
            agent_id: self.agent_id.clone(),
            workflow_id: self.workflow_id.clone(),
            image: self.image.clone(),
            input: self.input.clone(),
            config: self.config.duplicate(),
        };
        proof {
            assert(r@ =~= self@);
        }
        r
    }
}

/// Mathematical model of [`AgentResponse`].
#[verifier::ext_equal]
pub ghost struct ResponseV {
    pub execution_id: u64,
    pub agent_id: Seq<char>,
    pub status: ExecutionStatus,
    pub result: Option<ResultV>,
    pub error: Option<Seq<char>>,
    pub started_at: u64,
    pub completed_at: Option<u64>,
}

impl ResponseV {
    /// Field presence is tied to the status: a result exactly on
    /// `Completed`, an error exactly on `Failed`, a completion time
    /// exactly on a terminal status, never before the start time.
    pub open spec fn wf(self) -> bool {
        &&& self.result is Some <==> self.status is Completed
        &&& self.error is Some <==> self.status is Failed
        &&& self.completed_at is Some <==> self.status.spec_is_terminal()
        &&& self.result matches Some(res) ==> res.wf() && res.success
        &&& self.completed_at matches Some(c) ==> c >= self.started_at
    }
}

/// The reply published for a terminal record: a direct projection of
/// that record.
#[derive(Clone, Debug)]
pub struct AgentResponse {
    pub execution_id: u64,
    pub agent_id: String,
    pub status: ExecutionStatus,
    pub result: Option<AgentResult>,
    pub error: Option<String>,
    pub started_at: u64,
    pub completed_at: Option<u64>,
}

impl View for AgentResponse {
    type V = ResponseV;

    open spec fn view(&self) -> ResponseV {
        ResponseV {
            execution_id: self.execution_id,
            agent_id: self.agent_id@,
            status: self.status,
            result: match self.result {
                Option::Some(res) => Option::Some(res@),
                Option::None => Option::None,
            },
            error: match self.error {
                Option::Some(e) => Option::Some(e@),
                Option::None => Option::None,
            },
            started_at: self.started_at,
            completed_at: self.completed_at,
        }
    }
}

/// Mathematical model of [`AgentExecution`].
#[verifier::ext_equal]
pub ghost struct ExecutionV {
    pub id: u64,
    pub request: RequestV,
    pub status: ExecutionStatus,
    pub result: Option<ResultV>,
    pub error: Option<Seq<char>>,
    pub started_at: u64,
    pub completed_at: Option<u64>,
}

impl ExecutionV {
    /// Record invariant: result exactly on `Completed`, error exactly
    /// on `Failed`, completion time exactly on a terminal status and
    /// never before the start time; a stored result is well-formed and
    /// successful.
    pub open spec fn wf(self) -> bool {
        &&& self.status is Pending ==> self.result is None && self.error is None
            && self.completed_at is None
        &&& self.status is Running ==> self.result is None && self.error is None
            && self.completed_at is None
        &&& self.result is Some <==> self.status is Completed
        &&& self.error is Some <==> self.status is Failed
        &&& self.completed_at is Some <==> self.status.spec_is_terminal()
        &&& self.result matches Some(res) ==> res.wf() && res.success
        &&& self.completed_at matches Some(c) ==> c >= self.started_at
    }

    /// The reply projected from this record.
    pub open spec fn response(self) -> ResponseV {
        ResponseV {
            execution_id: self.id,
            agent_id: self.request.agent_id,
            status: self.status,
            result: self.result,
            error: self.error,
            started_at: self.started_at,
            completed_at: self.completed_at,
        }
    }
}

/// The tracked state of one agent invocation, owned by the registry.
#[derive(Clone, Debug)]
pub struct AgentExecution {
    pub id: u64,
    pub request: AgentRequest,
    pub status: ExecutionStatus,
    pub result: Option<AgentResult>,
    pub error: Option<String>,
    pub started_at: u64,
    pub completed_at: Option<u64>,
}

impl View for AgentExecution {
    type V = ExecutionV;

    open spec fn view(&self) -> ExecutionV {
        ExecutionV {
            id: self.id,
            request: self.request@,
            status: self.status,
            result: match self.result {
                Option::Some(res) => Option::Some(res@),
                Option::None => Option::None,
            },
            error: match self.error {
                Option::Some(e) => Option::Some(e@),
                Option::None => Option::None,
            },
            started_at: self.started_at,
            completed_at: self.completed_at,
        }
    }
}

impl AgentExecution {
    /// A fresh record for an accepted request, in state `Pending`.
    pub fn new(request: AgentRequest, id: u64, now: u64) -> (r: AgentExecution)
        ensures
            r@ == (ExecutionV {
                id,
                request: request@,
                status: ExecutionStatus::Pending,
                result: None,
                error: None,
                started_at: now,
                completed_at: None,
            }),
            r@.wf(),
    {
        let r = AgentExecution {
            id,
            request,
            status: ExecutionStatus::Pending,
            result: None,
            error: None,
            started_at: now,
            completed_at: None,
        };
        proof {
            assert(r@ =~= (ExecutionV {
                id,
                request: r.request@,
                status: ExecutionStatus::Pending,
                result: None,
                error: None,
                started_at: now,
                completed_at: None,
            }));
        }
        r
    }

    /// One-way move `Pending -> Running`; stamps the start time.
    pub fn start(&mut self, now: u64)
        requires
            old(self)@.wf(),
            old(self)@.status is Pending,
        ensures
            final(self)@ == (ExecutionV { status: ExecutionStatus::Running, started_at: now, ..old(self)@ }),
            final(self)@.wf(),
    {
        self.status = ExecutionStatus::Running;
        self.started_at = now;
        proof {
            assert(self@ =~= (ExecutionV {
                status: ExecutionStatus::Running,
                started_at: now,
                ..old(self)@
            }));
        }
    }

    /// One-way move `Running -> Completed` with the successful result.
    /// The completion time never precedes the start time: a clock that
    /// stepped backwards is clamped to the start time.
    pub fn complete_success(&mut self, result: AgentResult, now: u64)
        requires
            old(self)@.wf(),
            old(self)@.status is Running,
            result@.wf(),
            result@.success,
        ensures
            final(self)@ == (ExecutionV {
                status: ExecutionStatus::Completed,
                result: Some(result@),
                completed_at: Some(if now >= old(self)@.started_at { now } else { old(self)@.started_at }),
                ..old(self)@
            }),
            final(self)@.wf(),
    {
        let stamp: u64 = if now >= self.started_at { now } else { self.started_at };
        self.status = ExecutionStatus::Completed;
        self.result = Some(result);
        self.completed_at = Some(stamp);
        proof {
            assert(self@ =~= (ExecutionV {
                status: ExecutionStatus::Completed,
                result: Some(self.result->0@),
                completed_at: Some(stamp),
                ..old(self)@
            }));
        }
    }

    /// One-way move `Running -> Failed` with the error description.
    /// The completion time is clamped as in [`Self::complete_success`].
    pub fn complete_error(&mut self, error: String, now: u64)
        requires
            old(self)@.wf(),
            old(self)@.status is Running,
        ensures
            final(self)@ == (ExecutionV {
                status: ExecutionStatus::Failed,
                error: Some(error@),
                completed_at: Some(if now >= old(self)@.started_at { now } else { old(self)@.started_at }),
                ..old(self)@
            }),
            final(self)@.wf(),
    {
        let stamp: u64 = if now >= self.started_at { now } else { self.started_at };
        self.status = ExecutionStatus::Failed;
        self.error = Some(error);
        self.completed_at = Some(stamp);
        proof {
            assert(self@ =~= (ExecutionV {
                status: ExecutionStatus::Failed,
                error: Some(self.error->0@),
                completed_at: Some(stamp),
                ..old(self)@
            }));
        }
    }

    /// Best-effort cancellation: a non-terminal record moves to
    /// `Cancelled`; the completion time is clamped as above.
    pub fn cancel(&mut self, now: u64)
        requires
            old(self)@.wf(),
            !old(self)@.status.spec_is_terminal(),
        ensures
            final(self)@ == (ExecutionV {
                status: ExecutionStatus::Cancelled,
                completed_at: Some(if now >= old(self)@.started_at { now } else { old(self)@.started_at }),
                ..old(self)@
            }),
            final(self)@.wf(),
    {
        let stamp: u64 = if now >= self.started_at { now } else { self.started_at };
        self.status = ExecutionStatus::Cancelled;
        self.completed_at = Some(stamp);
        proof {
            assert(self@ =~= (ExecutionV {
                status: ExecutionStatus::Cancelled,
                completed_at: Some(stamp),
                ..old(self)@
            }));
        }
    }

    /// Elapsed milliseconds: from the start time to the completion time
    /// of a terminal record, else to `now`; saturating at the integer
    /// ceiling, and zero when `now` precedes the start time.
    pub fn duration_ms(&self, now: u64) -> (r: Option<u64>)
        requires
            self@.wf(),
        ensures
            ({
                let end = if self@.completed_at is Some { self@.completed_at->0 as int } else { now as int };
                let diff = if end >= self@.started_at { end - self@.started_at } else { 0 };
                r matches Some(ms) && ms == if diff * 1000 <= u64::MAX { diff * 1000 } else { u64::MAX as int }
            }),
    {
        let end: u64 = match self.completed_at {
            Some(c) => c,
            None => now,
        };
        let diff: u64 = if end >= self.started_at { end - self.started_at } else { 0 };
        if diff <= u64::MAX / 1000 {
            Some(diff * 1000)
        } else {
            proof {
                assert((diff as int) * 1000 > u64::MAX) by (nonlinear_arith)
                    requires diff > u64::MAX / 1000, diff <= u64::MAX
                ;
            }
            Some(u64::MAX)
        }
    }

    /// The record is in its one non-terminal active state.
    pub fn is_running(&self) -> (r: bool)
        ensures
            r == (self@.status is Running),
    {
        match self.status {
            ExecutionStatus::Running => true,
            _ => false,
        }
    }

    /// The record has reached a terminal state.
    pub fn is_completed(&self) -> (r: bool)
        ensures
            r == self@.status.spec_is_terminal(),
    {
        self.status.is_terminal()
    }

    /// The reply projected from this record, for publication on the
    /// message bus.
    pub fn to_response(&self) -> (r: AgentResponse)
        ensures
            r@ == self@.response(),
    {
        let result = match &self.result {
            Option::Some(res) => Option::Some(res.duplicate()),
            Option::None => Option::None,
        };
        let error = match &self.error {
            Option::Some(e) => Option::Some(e.clone()),
            Option::None => Option::None,
        };
        let r = AgentResponse {
            execution_id: self.id,
            agent_id: self.request.agent_id.clone(),
            status: self.status,
            result,
            error,
            started_at: self.started_at,
            completed_at: self.completed_at,
        };
        proof {
            assert(r@ =~= self@.response());
        }
        r
    }
}

/// The record invariant ties field presence to the status: this is the
/// law that a result is present exactly on `Completed` and an error
/// exactly on `Failed`, and that a completion time never precedes the
/// start time.
pub proof fn lemma_record_field_presence(e: ExecutionV)
    requires
        e.wf(),
    ensures
        e.result is Some <==> e.status is Completed,
        e.error is Some <==> e.status is Failed,
        e.completed_at matches Some(c) ==> c >= e.started_at,
{
}

} // verus!
