//! The read-only configuration surface that drives every assembly decision.

use vstd::prelude::*;

verus! {

/// How the operator runs this node on the parachain.
#[derive(Clone, Copy, PartialEq, Eq, Debug)]
pub enum Role {
    /// Authors blocks (a collator in non-dev mode, a sealer in dev mode).
    Authority,
    /// Follows the chain and serves RPC without authoring.
    Full,
    /// A light client; the assembly rejects this role outright.
    Light,
}

impl Role {
    /// True exactly for the block-authoring role.
    pub fn is_authority(&self) -> (r: bool)
        ensures
            r == (*self is Authority),
    {
        matches!(self, Role::Authority)
    }
}

/// How the runtime executor runs Wasm when native dispatch falls through.
#[derive(Clone, Copy, PartialEq, Eq, Debug)]
pub enum WasmExecutionMethod {
    Interpreted,
    Compiled,
}

/// Transaction-pool limits, passed through to the pool builder unchanged.
#[derive(Clone, Copy, PartialEq, Eq, Debug)]
pub struct PoolLimits {
    pub ready_count: u64,
    pub ready_bytes: u64,
    pub future_count: u64,
    pub future_bytes: u64,
}

/// Everything the assembly reads before it wires a node together.
///
/// The parachain id is not part of the configuration: the finalizers take it
/// as a separate argument.
#[derive(Debug)]
pub struct Configuration {
    pub role: Role,
    /// Telemetry endpoint URLs; telemetry is wired only when at least one is
    /// present.
    pub telemetry_endpoints: Option<Vec<String>>,
    pub transaction_pool: PoolLimits,
    /// Whether a prometheus registry was handed in.
    pub prometheus: bool,
    pub wasm_method: WasmExecutionMethod,
    pub default_heap_pages: Option<u64>,
    pub max_runtime_instances: u64,
    /// Dev mode only: whether offchain workers are built and attached.
    pub offchain_worker_enabled: bool,
    /// Collator mode only: author even when the eligibility prediction says
    /// this node is not due.
    pub force_authoring: bool,
}

/// Telemetry is active exactly when a non-empty endpoint list is configured.
pub open spec fn telemetry_active(c: Configuration) -> bool {
    match c.telemetry_endpoints {
        Some(endpoints) => endpoints@.len() > 0,
        None => false,
    }
}

impl Configuration {
    /// Executable mirror of [`telemetry_active`].
    pub fn has_telemetry(&self) -> (r: bool)
        ensures
            r == telemetry_active(*self),
    {
        match &self.telemetry_endpoints {
            Some(endpoints) => endpoints.len() > 0,
            None => false,
        }
    }
}

} // verus!
