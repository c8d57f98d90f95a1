//! Sandboxed execution engine and execution-lifecycle coordinator for
//! untrusted agent workloads delivered as portable bytecode.
//!
//! The library owns the data model of an execution (request, record,
//! result), the registry of all executions, the canonical wire codec for
//! requests and responses, the sandbox engine that runs guest bytecode
//! under a resource budget, and the coordinator that drives one record
//! from acceptance to its terminal state.  Transport, clocks in the
//! large, and the read-only status surface live outside the library.
use vstd::prelude::*;

pub mod agent;
pub mod codec;
pub mod coordinator;
pub mod registry;
pub mod sandbox;

verus! {

/// Process-level configuration: the listening port for the status
/// surface, the message-bus endpoint, and the orchestrator endpoint
/// (accepted but not consumed by the core logic).
pub struct RuntimeConfig {
    pub port: u16,
    pub nats_url: String,
    pub orchestrator_url: String,
}

} // verus!
