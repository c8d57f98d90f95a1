//! The sandbox engine: compiles guest bytecode, instantiates it under a
//! per-request resource budget with no ambient host capabilities,
//! invokes the exported entry function with a cooperative epoch
//! deadline, marshals the input and output through guest memory with
//! explicit bounds checks, and classifies every guest-side failure as
//! data.  The embedding is wasmtime; every call into it stands behind a
//! trusted wrapper, and everything around those calls is verified.
//!
//! Each run's store, entry function and exported memory are created
//! together and held together in a [`GuestSession`], so no handle is
//! ever used with a store other than the one that owns it.
use vstd::prelude::*;
use vstd::string::{StrSliceExecFns, StringExecFns};
use crate::agent::{AgentConfig, AgentOutput, AgentRequest, AgentResult, ExecutionMetrics};
use crate::codec::parse_output;

verus! {

/// Hard ceiling on linear memory a guest may hold, in bytes.
pub const MEMORY_LIMIT_BYTES: usize = 10 * 1024 * 1024;

/// Hard ceiling on the guest stack, in bytes.
pub const STACK_LIMIT_BYTES: usize = 1024 * 1024;

/// Cap on table elements a guest may create.
pub const TABLE_ELEMENT_LIMIT: usize = 1000;

/// Deadline ticks granted when a request names no timeout; the host
/// ticker advances one tick per second.
pub const DEFAULT_DEADLINE_TICKS: u64 = 30;

/// Ceiling on the deadline ticks a request may ask for, so the
/// embedding's addition of ticks to its epoch counter cannot wrap.
pub const MAX_DEADLINE_TICKS: u64 = 0x1_0000_0000;

/// Guest-memory offset at which the host writes the length-prefixed
/// input buffer.
pub const INPUT_BASE: usize = 1024;

/// Derived per-request limits for one sandboxed run.
pub struct ResourceBudget {
    pub memory_limit: usize,
    pub stack_limit: usize,
    pub table_element_limit: usize,
    pub instance_limit: usize,
    pub table_limit: usize,
    pub memory_count_limit: usize,
    pub deadline_ticks: u64,
}

/// The budget a request's configuration earns: its own positive
/// timeout in seconds as deadline ticks, clamped at the ceiling, else
/// the default; fixed memory, stack and table ceilings; a single
/// instance, table and memory.
pub fn budget_for(config: &AgentConfig) -> (r: ResourceBudget)
    ensures
        r.deadline_ticks == (match config.timeout_seconds {
            Option::Some(t) => if t <= MAX_DEADLINE_TICKS {
                t
            } else {
                MAX_DEADLINE_TICKS
            },
            Option::None => DEFAULT_DEADLINE_TICKS,
        }),
        r.memory_limit == MEMORY_LIMIT_BYTES,
        r.stack_limit == STACK_LIMIT_BYTES,
        r.table_element_limit == TABLE_ELEMENT_LIMIT,
        r.instance_limit == 1,
        r.table_limit == 1,
        r.memory_count_limit == 1,
{
    ResourceBudget {
        memory_limit: MEMORY_LIMIT_BYTES,
        stack_limit: STACK_LIMIT_BYTES,
        table_element_limit: TABLE_ELEMENT_LIMIT,
        instance_limit: 1,
        table_limit: 1,
        memory_count_limit: 1,
        deadline_ticks: match config.timeout_seconds {
            Option::Some(t) => if t <= MAX_DEADLINE_TICKS {
                t
            } else {
                MAX_DEADLINE_TICKS
            },
            Option::None => DEFAULT_DEADLINE_TICKS,
        },
    }
}

// ---------------------------------------------------------------------
// Trusted declarations of the embedding's types.
// ---------------------------------------------------------------------

#[verifier::external_type_specification]
#[verifier::external_body]
pub struct ExEngine(wasmtime::Engine);

#[verifier::external_type_specification]
#[verifier::external_body]
pub struct ExModule(wasmtime::Module);

#[verifier::external_type_specification]
#[verifier::external_body]
#[verifier::reject_recursive_types(T)]
pub struct ExStore<T: 'static>(wasmtime::Store<T>);

#[verifier::external_type_specification]
#[verifier::external_body]
pub struct ExStoreLimits(wasmtime::StoreLimits);

#[verifier::external_type_specification]
#[verifier::external_body]
#[verifier::reject_recursive_types(Params)]
#[verifier::reject_recursive_types(Results)]
pub struct ExTypedFunc<Params, Results>(wasmtime::TypedFunc<Params, Results>);

#[verifier::external_type_specification]
#[verifier::external_body]
pub struct ExMemory(wasmtime::Memory);

/// One instantiated guest: the store created for this run together
/// with the entry function and exported memory looked up from that
/// same store.  The fields are private and only [`start_session`]
/// builds a value, so a handle is never paired with a store other
/// than its owner — the pairings wasmtime documents as panicking are
/// unrepresentable.
pub struct GuestSession {
    store: wasmtime::Store<wasmtime::StoreLimits>,
    entry: wasmtime::TypedFunc<(i32, i32), i32>,
    memory: wasmtime::Memory,
}

// ---------------------------------------------------------------------
// Trusted wrappers around the embedding.
// ---------------------------------------------------------------------

/// Relies on wasmtime::Engine::new with epoch interruption enabled,
/// the stack ceiling set, multiple memories allowed in form but capped
/// by the store limits, 64-bit memories refused, and modest
/// virtual-memory reservations so a guest memory costs address space
/// near its ceiling, not gigabytes: the engine instruments guest code
/// with cooperative deadline checks.
#[verifier::external_body]
pub fn new_engine(stack_limit: usize) -> (r: Result<wasmtime::Engine, String>) {
    let mut config = wasmtime::Config::new();
    config.epoch_interruption(true);
    config.max_wasm_stack(stack_limit);
    config.wasm_multi_memory(true);
    config.wasm_memory64(false);
    config.memory_reservation(MEMORY_LIMIT_BYTES as u64);
    config.memory_reservation_for_growth(0);
    config.memory_guard_size(64 * 1024);
    match wasmtime::Engine::new(&config) {
        Ok(e) => Ok(e),
        Err(e) => Err(e.to_string()),
    }
}

/// Relies on wasmtime::Engine::clone: engines are cheaply shareable
/// handles to the same compilation environment and epoch counter.
#[verifier::external_body]
pub fn clone_engine(engine: &wasmtime::Engine) -> (r: wasmtime::Engine) {
    engine.clone()
}

/// Relies on wasmtime::Engine::increment_epoch: advances the epoch
/// counter that running guests compare their deadline against.
#[verifier::external_body]
pub fn increment_epoch(engine: &wasmtime::Engine) {
    engine.increment_epoch();
}

/// Relies on wasmtime::Module::new: compiles and validates bytecode,
/// failing exactly on malformed or unverifiable modules.
#[verifier::external_body]
fn compile_module(engine: &wasmtime::Engine, bytecode: &Vec<u8>) -> (r: Result<
    wasmtime::Module,
    String,
>) {
    match wasmtime::Module::new(engine, bytecode.as_slice()) {
        Ok(m) => Ok(m),
        Err(e) => Err(e.to_string()),
    }
}

/// Relies on wasmtime::Store::new, Store::limiter, StoreLimitsBuilder,
/// Store::epoch_deadline_trap and Store::set_epoch_deadline: the store
/// holds the budget's memory, table and count ceilings, refuses growth
/// beyond them, and traps the guest once the epoch passes the
/// deadline.
#[verifier::external_body]
fn new_store(engine: &wasmtime::Engine, budget: &ResourceBudget) -> (r: wasmtime::Store<
    wasmtime::StoreLimits,
>) {
    let limits = wasmtime::StoreLimitsBuilder::new()
        .memory_size(budget.memory_limit)
        .table_elements(budget.table_element_limit)
        .instances(budget.instance_limit)
        .tables(budget.table_limit)
        .memories(budget.memory_count_limit)
        .trap_on_grow_failure(true)
        .build();
    let mut store = wasmtime::Store::new(engine, limits);
    store.limiter(|state| state);
    store.epoch_deadline_trap();
    store.set_epoch_deadline(budget.deadline_ticks);
    store
}

/// Relies on wasmtime::Instance::new with an empty import list (the
/// guest gets no host capabilities at all, default-deny), on
/// Instance::get_typed_func for the two-argument one-result entry
/// function, and on Instance::get_memory for the conventional memory
/// export.  All three run against the one store this session owns, and
/// the handles stay paired with it for the session's lifetime.
#[verifier::external_body]
fn start_session(
    store: wasmtime::Store<wasmtime::StoreLimits>,
    module: &wasmtime::Module,
) -> (r: Result<GuestSession, String>) {
    let mut store = store;
    let instance = match wasmtime::Instance::new(&mut store, module, &[]) {
        Ok(i) => i,
        Err(e) => return Err(e.to_string()),
    };
    let entry = match instance.get_typed_func::<(i32, i32), i32>(&mut store, "execute") {
        Ok(f) => f,
        Err(e) => return Err(e.to_string()),
    };
    let memory = match instance.get_memory(&mut store, "memory") {
        Some(m) => m,
        None => return Err("module exports no linear memory".to_string()),
    };
    Ok(GuestSession { store, entry, memory })
}

/// Relies on wasmtime::Memory::data_size: the current byte size of the
/// guest's linear memory.  The memory belongs to the session's store.
#[verifier::external_body]
fn session_memory_size(session: &GuestSession) -> (r: usize) {
    session.memory.data_size(&session.store)
}

/// Relies on wasmtime::Memory::write: copies the buffer into guest
/// memory at the offset, failing if the range is out of bounds.  The
/// memory belongs to the session's store.
#[verifier::external_body]
fn session_write(session: &mut GuestSession, offset: usize, data: &Vec<u8>) -> (r: Result<
    (),
    String,
>) {
    match session.memory.write(&mut session.store, offset, data.as_slice()) {
        Ok(()) => Ok(()),
        Err(e) => Err(e.to_string()),
    }
}

/// Relies on wasmtime::Memory::read: fills a buffer of the requested
/// length from guest memory at the offset, failing if out of bounds;
/// on success the buffer holds exactly the requested bytes.  The
/// memory belongs to the session's store.
#[verifier::external_body]
fn session_read(session: &GuestSession, offset: usize, len: usize) -> (r: Result<Vec<u8>, String>)
    ensures
        r matches Ok(v) ==> v@.len() == len,
{
    let mut buf = vec![0u8; len];
    match session.memory.read(&session.store, offset, buf.as_mut_slice()) {
        Ok(()) => Ok(buf),
        Err(e) => Err(e.to_string()),
    }
}

/// What one invocation of the guest entry function came to.
pub enum CallOutcome {
    Returned(i32),
    TimedOut,
    ResourceDenied(String),
    Trapped(String),
}

/// Relies on wasmtime::TypedFunc::call and wasmtime::Trap: a normal
/// return carries the guest's result; an epoch-deadline interrupt is
/// the cooperative timeout; any other trap is a guest fault; a
/// non-trap error is the store refusing a resource grant, the only
/// non-trap error this store configuration produces.  The function
/// belongs to the session's store.  The call returns only when the
/// guest finishes or the deadline trap fires, so a guest that never
/// yields needs the engine's epoch advanced by another thread.
#[verifier::external_body]
fn session_call(session: &mut GuestSession, ptr: i32, len: i32) -> (r: CallOutcome) {
    match session.entry.call(&mut session.store, (ptr, len)) {
        Ok(v) => CallOutcome::Returned(v),
        Err(e) => match e.downcast_ref::<wasmtime::Trap>() {
            Some(wasmtime::Trap::Interrupt) => CallOutcome::TimedOut,
            Some(t) => CallOutcome::Trapped(format!("{t:?}")),
            None => CallOutcome::ResourceDenied(e.to_string()),
        },
    }
}

/// Relies on std::time::SystemTime::now: milliseconds since the Unix
/// epoch, zero if the clock precedes it.  Nothing is assumed of the
/// value: wall clocks may step.
#[verifier::external_body]
pub fn now_millis() -> (r: u64) {
    match std::time::SystemTime::now().duration_since(std::time::UNIX_EPOCH) {
        Ok(d) => d.as_millis() as u64,
        Err(_) => 0,
    }
}

} // verus!

verus! {

/// The classification a failed run carries in its error string.
#[derive(Clone, Copy, Debug, PartialEq, Eq, Structural)]
pub enum FailureKind {
    Resolution,
    InvalidModule,
    InstantiationFailed,
    Timeout,
    ResourceExceeded,
    ExecutionTrap,
}

/// The prefix each failure classification stamps on its error string.
pub open spec fn kind_label(k: FailureKind) -> Seq<char> {
    match k {
        FailureKind::Resolution => "module resolution failed: "@,
        FailureKind::InvalidModule => "invalid module: "@,
        FailureKind::InstantiationFailed => "instantiation failed: "@,
        FailureKind::Timeout => "timeout: "@,
        FailureKind::ResourceExceeded => "resource budget exceeded: "@,
        FailureKind::ExecutionTrap => "execution trap: "@,
    }
}

fn kind_label_str(k: FailureKind) -> (r: String)
    ensures
        r@ == kind_label(k),
{
    match k {
        FailureKind::Resolution => String::from_str("module resolution failed: "),
        FailureKind::InvalidModule => String::from_str("invalid module: "),
        FailureKind::InstantiationFailed => String::from_str("instantiation failed: "),
        FailureKind::Timeout => String::from_str("timeout: "),
        FailureKind::ResourceExceeded => String::from_str("resource budget exceeded: "),
        FailureKind::ExecutionTrap => String::from_str("execution trap: "),
    }
}

/// A failed run reported as data: no output, a classified error
/// string, metrics with no guest figures beyond the elapsed time.
pub fn failure_result(k: FailureKind, detail: &String, elapsed_ms: u64, memory: u64) -> (r:
    AgentResult)
    ensures
        r@.wf(),
        !r@.success,
        r@.output is None,
        r@.error == Some(kind_label(k) + detail@),
        r@.metrics == (ExecutionMetrics {
            memory_usage: memory,
            cpu_time: elapsed_ms,
            llm_calls: 0,
            execution_time_ms: elapsed_ms,
        }),
{
    let mut msg = kind_label_str(k);
    msg.append(detail.as_str());
    AgentResult {
        success: false,
        output: None,
        error: Some(msg),
        metrics: ExecutionMetrics {
            memory_usage: memory,
            cpu_time: elapsed_ms,
            llm_calls: 0,
            execution_time_ms: elapsed_ms,
        },
    }
}

/// Milliseconds elapsed since a start reading of the clock; zero when
/// the clock stepped backwards.
fn elapsed_since(start_ms: u64) -> u64 {
    let now: u64 = now_millis();
    if now >= start_ms {
        now - start_ms
    } else {
        0
    }
}

/// The bytecode of the built-in demonstration guest: it exports the
/// entry function and a linear memory whose data segment holds a
/// canonical output frame.
pub open spec fn demo_module_bytes() -> Seq<u8> {
    seq![
        0x00, 0x61, 0x73, 0x6d, 0x01, 0x00, 0x00, 0x00, 0x01, 0x07, 0x01, 0x60,
0x02, 0x7f, 0x7f, 0x01, 0x7f, 0x03, 0x02, 0x01, 0x00, 0x05, 0x03, 0x01,
0x00, 0x01, 0x07, 0x14, 0x02, 0x07, 0x65, 0x78, 0x65, 0x63, 0x75, 0x74,
0x65, 0x00, 0x00, 0x06, 0x6d, 0x65, 0x6d, 0x6f, 0x72, 0x79, 0x02, 0x00,
0x0a, 0x06, 0x01, 0x04, 0x00, 0x41, 0x10, 0x0b, 0x0b, 0x35, 0x01, 0x00,
0x41, 0x10, 0x0b, 0x2f, 0x27, 0x00, 0x00, 0x00, 0x00, 0x00, 0x00, 0x00,
0x19, 0x00, 0x00, 0x00, 0x00, 0x00, 0x00, 0x00, 0x41, 0x67, 0x65, 0x6e,
0x74, 0x20, 0x65, 0x78, 0x65, 0x63, 0x75, 0x74, 0x69, 0x6f, 0x6e, 0x20,
0x63, 0x6f, 0x6d, 0x70, 0x6c, 0x65, 0x74, 0x65, 0x64, 0x01, 0x01, 0x00,
0x00, 0x00, 0x00
    ]
}

/// Build the demonstration guest's bytecode.
pub fn demo_module() -> (r: Vec<u8>)
    ensures
        r@ == demo_module_bytes(),
{
    let r: Vec<u8> = vec![
        0x00, 0x61, 0x73, 0x6d, 0x01, 0x00, 0x00, 0x00, 0x01, 0x07, 0x01, 0x60,
0x02, 0x7f, 0x7f, 0x01, 0x7f, 0x03, 0x02, 0x01, 0x00, 0x05, 0x03, 0x01,
0x00, 0x01, 0x07, 0x14, 0x02, 0x07, 0x65, 0x78, 0x65, 0x63, 0x75, 0x74,
0x65, 0x00, 0x00, 0x06, 0x6d, 0x65, 0x6d, 0x6f, 0x72, 0x79, 0x02, 0x00,
0x0a, 0x06, 0x01, 0x04, 0x00, 0x41, 0x10, 0x0b, 0x0b, 0x35, 0x01, 0x00,
0x41, 0x10, 0x0b, 0x2f, 0x27, 0x00, 0x00, 0x00, 0x00, 0x00, 0x00, 0x00,
0x19, 0x00, 0x00, 0x00, 0x00, 0x00, 0x00, 0x00, 0x41, 0x67, 0x65, 0x6e,
0x74, 0x20, 0x65, 0x78, 0x65, 0x63, 0x75, 0x74, 0x69, 0x6f, 0x6e, 0x20,
0x63, 0x6f, 0x6d, 0x70, 0x6c, 0x65, 0x74, 0x65, 0x64, 0x01, 0x01, 0x00,
0x00, 0x00, 0x00
    ];
    proof {
        assert(r@ =~= demo_module_bytes());
    }
    r
}

/// The bytecode of the built-in spinning guest: its entry function
/// never returns, so only the cooperative deadline ends it.
pub open spec fn spin_module_bytes() -> Seq<u8> {
    seq![
        0x00, 0x61, 0x73, 0x6d, 0x01, 0x00, 0x00, 0x00, 0x01, 0x07, 0x01, 0x60,
0x02, 0x7f, 0x7f, 0x01, 0x7f, 0x03, 0x02, 0x01, 0x00, 0x05, 0x03, 0x01,
0x00, 0x01, 0x07, 0x14, 0x02, 0x07, 0x65, 0x78, 0x65, 0x63, 0x75, 0x74,
0x65, 0x00, 0x00, 0x06, 0x6d, 0x65, 0x6d, 0x6f, 0x72, 0x79, 0x02, 0x00,
0x0a, 0x0b, 0x01, 0x09, 0x00, 0x03, 0x40, 0x0c, 0x00, 0x0b, 0x41, 0x00, 0x0b
    ]
}

/// Build the spinning guest's bytecode.
pub fn spin_module() -> (r: Vec<u8>)
    ensures
        r@ == spin_module_bytes(),
{
    let r: Vec<u8> = vec![
        0x00, 0x61, 0x73, 0x6d, 0x01, 0x00, 0x00, 0x00, 0x01, 0x07, 0x01, 0x60,
0x02, 0x7f, 0x7f, 0x01, 0x7f, 0x03, 0x02, 0x01, 0x00, 0x05, 0x03, 0x01,
0x00, 0x01, 0x07, 0x14, 0x02, 0x07, 0x65, 0x78, 0x65, 0x63, 0x75, 0x74,
0x65, 0x00, 0x00, 0x06, 0x6d, 0x65, 0x6d, 0x6f, 0x72, 0x79, 0x02, 0x00,
0x0a, 0x0b, 0x01, 0x09, 0x00, 0x03, 0x40, 0x0c, 0x00, 0x0b, 0x41, 0x00, 0x0b
    ];
    proof {
        assert(r@ =~= spin_module_bytes());
    }
    r
}

/// An image reference the built-in provider resolves to the
/// demonstration guest.
pub open spec fn is_demo_image(s: Seq<char>) -> bool {
    s.len() >= 5 && s.subrange(0, 5) == "demo:"@
}

/// The image reference of the spinning guest.
pub open spec fn is_spin_image(s: Seq<char>) -> bool {
    s == "demo:spin"@
}

/// The built-in module provider: the spinning guest under its own
/// image reference, the demonstration guest under every other image
/// of the demonstration scheme, and nothing else.
pub fn resolve_image(image: &String) -> (r: Result<Vec<u8>, String>)
    ensures
        r is Ok <==> is_demo_image(image@),
        r matches Ok(b) ==> b@ == (if is_spin_image(image@) {
            spin_module_bytes()
        } else {
            demo_module_bytes()
        }),
        r matches Err(e) ==> e@ == "image not found in module registry"@,
{
    proof {
        reveal_strlit("demo:");
        reveal_strlit("demo:spin");
    }
    if image.eq(&String::from_str("demo:spin")) {
        proof {
            assert(image@.subrange(0, 5) =~= "demo:"@);
        }
        return Ok(spin_module());
    }
    let s = image.as_str();
    let n: usize = s.unicode_len();
    if n >= 5 {
        let c0 = s.get_char(0);
        let c1 = s.get_char(1);
        let c2 = s.get_char(2);
        let c3 = s.get_char(3);
        let c4 = s.get_char(4);
        proof {
            assert(forall|i: int| 0 <= i < 5 ==> image@.subrange(0, 5)[i] == image@[i]);
        }
        if c0 == 'd' && c1 == 'e' && c2 == 'm' && c3 == 'o' && c4 == ':' {
            proof {
                assert(image@.subrange(0, 5) =~= "demo:"@);
            }
            Ok(demo_module())
        } else {
            Err(String::from_str("image not found in module registry"))
        }
    } else {
        Err(String::from_str("image not found in module registry"))
    }
}

/// Read the guest's length-prefixed output frame at the pointer its
/// entry function returned, with bounds checks on the host side of the
/// trust boundary, and parse it as a canonical output.  A negative
/// pointer is refused outright.
fn read_guest_output(session: &GuestSession, ptr: i32) -> (r: Result<AgentOutput, String>)
    ensures
        ptr < 0 ==> (r matches Err(e) && e@ == "entry function returned a negative pointer"@),
{
    if ptr < 0 {
        return Err(String::from_str("entry function returned a negative pointer"));
    }
    let off: usize = ptr as usize;
    let mem_size: usize = session_memory_size(session);
    if off > mem_size || mem_size - off < 8 {
        return Err(String::from_str("output pointer out of bounds"));
    }
    let len_bytes = match session_read(session, off, 8) {
        Ok(v) => v,
        Err(e) => {
            return Err(e);
        },
    };
    let n: u64 = vstd::bytes::u64_from_le_bytes(len_bytes.as_slice());
    if n > (mem_size - (off + 8)) as u64 {
        return Err(String::from_str("output length out of bounds"));
    }
    let data = match session_read(session, off + 8, n as usize) {
        Ok(v) => v,
        Err(e) => {
            return Err(e);
        },
    };
    match parse_output(&data) {
        Option::Some(o) => Ok(o),
        Option::None => Err(String::from_str("malformed guest output")),
    }
}

/// Turn what the guest call came to into the reported result.  A
/// cooperative deadline expiry is classified as a timeout, a refused
/// resource grant as a budget violation, any other trap as a guest
/// fault; a normal return succeeds exactly when the output frame reads
/// back and parses, and then the reported LLM-call count is the one
/// the guest's output names (self-reported, not host-verified).
pub fn result_for_outcome(outcome: CallOutcome, session: &GuestSession, start_ms: u64) -> (r:
    AgentResult)
    ensures
        r@.wf(),
        r@.success ==> outcome is Returned,
        r@.success ==> (r@.output matches Some(o) && r@.metrics.llm_calls == (match o.llm_calls {
            Some(c) => c,
            None => 0,
        })),
        outcome is TimedOut ==> !r@.success && r@.error == Some(
            kind_label(FailureKind::Timeout) + "deadline exceeded"@,
        ),
        outcome matches CallOutcome::ResourceDenied(m) ==> !r@.success && r@.error == Some(
            kind_label(FailureKind::ResourceExceeded) + m@,
        ),
        outcome matches CallOutcome::Trapped(m) ==> !r@.success && r@.error == Some(
            kind_label(FailureKind::ExecutionTrap) + m@,
        ),
        (outcome matches CallOutcome::Returned(p) && p < 0) ==> !r@.success && r@.error == Some(
            kind_label(FailureKind::ExecutionTrap) + "entry function returned a negative pointer"@,
        ),
{
    match outcome {
        CallOutcome::TimedOut => {
            let detail = String::from_str("deadline exceeded");
            failure_result(FailureKind::Timeout, &detail, elapsed_since(start_ms), 0)
        },
        CallOutcome::ResourceDenied(m) => {
            failure_result(FailureKind::ResourceExceeded, &m, elapsed_since(start_ms), 0)
        },
        CallOutcome::Trapped(m) => {
            failure_result(FailureKind::ExecutionTrap, &m, elapsed_since(start_ms), 0)
        },
        CallOutcome::Returned(ptr) => {
            match read_guest_output(session, ptr) {
                Ok(output) => {
                    let elapsed: u64 = elapsed_since(start_ms);
                    let mem_used: u64 = session_memory_size(session) as u64;
                    let llm: u32 = match output.llm_calls {
                        Option::Some(c) => c,
                        Option::None => 0,
                    };
                    AgentResult {
                        success: true,
                        output: Some(output),
                        error: None,
                        metrics: ExecutionMetrics {
                            memory_usage: mem_used,
                            cpu_time: elapsed,
                            llm_calls: llm,
                            execution_time_ms: elapsed,
                        },
                    }
                },
                Err(e) => {
                    failure_result(FailureKind::ExecutionTrap, &e, elapsed_since(start_ms), 0)
                },
            }
        },
    }
}

/// One sandboxed run, end to end: resolve the image, compile, build a
/// store under the request's budget, instantiate with no imports and
/// look up the entry function and guest memory, frame and write the
/// input, call under the cooperative deadline, and read the output
/// back.  Guest misbehavior of every kind is returned as data; the
/// host never fails.  An image outside the provider's scheme fails
/// with the resolution classification and no guest figures; a
/// successful run carries the guest's parsed output and its
/// self-reported LLM-call count.
pub fn execute_agent(engine: &wasmtime::Engine, request: &AgentRequest) -> (r: AgentResult)
    ensures
        r@.wf(),
        r@.success ==> is_demo_image(request@.image),
        r@.success ==> (r@.output matches Some(o) && r@.metrics.llm_calls == (match o.llm_calls {
            Some(c) => c,
            None => 0,
        })),
        !is_demo_image(request@.image) ==> !r@.success && r@.error == Some(
            kind_label(FailureKind::Resolution) + "image not found in module registry"@,
        ) && r@.metrics.memory_usage == 0 && r@.metrics.llm_calls == 0,
{
    let start_ms: u64 = now_millis();
    let budget = budget_for(&request.config);
    let bytecode = match resolve_image(&request.image) {
        Ok(b) => b,
        Err(e) => {
            return failure_result(FailureKind::Resolution, &e, elapsed_since(start_ms), 0);
        },
    };
    let module = match compile_module(engine, &bytecode) {
        Ok(m) => m,
        Err(e) => {
            return failure_result(FailureKind::InvalidModule, &e, elapsed_since(start_ms), 0);
        },
    };
    let store = new_store(engine, &budget);
    let mut session = match start_session(store, &module) {
        Ok(s) => s,
        Err(e) => {
            return failure_result(FailureKind::InstantiationFailed, &e, elapsed_since(start_ms), 0);
        },
    };
    let frame = crate::codec::encode_str_frame(&request.input);
    let mem_size: usize = session_memory_size(&session);
    if mem_size < INPUT_BASE || mem_size - INPUT_BASE < frame.len() || frame.len() > (i32::MAX
        as usize) {
        let detail = String::from_str("input does not fit in guest memory");
        return failure_result(FailureKind::ResourceExceeded, &detail, elapsed_since(start_ms), 0);
    }
    match session_write(&mut session, INPUT_BASE, &frame) {
        Ok(()) => {},
        Err(e) => {
            return failure_result(FailureKind::ResourceExceeded, &e, elapsed_since(start_ms), 0);
        },
    }
    let outcome = session_call(&mut session, INPUT_BASE as i32, frame.len() as i32);
    result_for_outcome(outcome, &session, start_ms)
}

} // verus!
