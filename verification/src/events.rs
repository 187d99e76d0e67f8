//! The observable steps an assembly run performs, in order.
//!
//! Every factory in this crate returns the trace of steps it decided on as a
//! `Vec<Event>`; the contracts pin the whole trace down, and the lemmas in
//! [`crate::laws`] state the ordering and multiplicity invariants over it.

use vstd::prelude::*;
use crate::config::WasmExecutionMethod;

verus! {

/// The failure class of a spawned task.
#[derive(Clone, Copy, PartialEq, Eq, Debug)]
pub enum TaskClass {
    /// Failure is logged; the node keeps running.
    Ordinary,
    /// Failure tears the node down.
    Essential,
    /// Essential, and may block a worker thread.
    EssentialBlocking,
}

/// The label a task is spawned under.
#[derive(Clone, Copy, PartialEq, Eq, Debug)]
pub enum TaskLabel {
    /// The telemetry worker.
    Telemetry,
    /// The dev-mode manual-seal loop.
    AuthorshipTask,
}

/// Which import-queue pipeline phase 1 selected.
#[derive(Clone, Copy, PartialEq, Eq, Debug)]
pub enum ImportQueueKind {
    /// Dev mode: a manual-seal queue (it does not validate inherents; a
    /// limitation accepted for development ergonomics).
    ManualSeal,
    /// Non-dev mode: a nimbus queue whose inherent-data provider yields only
    /// a system-time timestamp.
    Nimbus,
}

/// One observable assembly step.
#[derive(Clone, Copy, PartialEq, Eq, Debug)]
pub enum Event {
    /// Construct the native-else-Wasm executor from the configured policy.
    BuildExecutor {
        wasm_method: WasmExecutionMethod,
        default_heap_pages: Option<u64>,
        max_runtime_instances: u64,
    },
    /// Initialize client, backend, keystore container and task manager.
    BuildClientParts,
    /// Construct the telemetry worker with its send-buffer depth, and derive
    /// the handle downstream subsystems share.
    BuildTelemetryWorker { buffer_depth: u32 },
    /// Spawn a task on the task manager.
    SpawnTask { class: TaskClass, label: TaskLabel },
    /// Build the basic full transaction pool.
    BuildTransactionPool { is_authority: bool, prometheus: bool },
    /// Build the import queue selected for the mode.
    BuildImportQueue { kind: ImportQueueKind },
    /// Wrap the backend in a longest-chain selector (dev mode only).
    BuildSelectChain,
    /// Build the relay-chain full node (collator and full-node modes only).
    BuildRelayChainNode,
    /// Build the block-announce validator bound to the relay chain.
    BuildBlockAnnounceValidator { para_id: u32 },
    /// Build the network stack.
    BuildNetwork { block_announce_validation: bool, warp_sync: bool },
    /// Build and attach offchain workers (dev mode, when enabled).
    BuildOffchainWorkers,
    /// Spawn the common service tasks, RPC included.
    SpawnServiceTasks { telemetry: bool },
    /// Construct the nimbus parachain consensus engine.
    BuildConsensus { para_id: u32, skip_prediction: bool, proof_recording: bool },
    /// Start the collator loop.
    StartCollator { para_id: u32 },
    /// Start the passive full-node follower.
    StartFullNode { para_id: u32 },
    /// Accept peer connections; the last observable step of every finalizer.
    StartNetwork,
}

/// How often `needle` occurs in `trace`.
pub open spec fn count_occurrences(trace: Seq<Event>, needle: Event) -> nat
    decreases trace.len(),
{
    if trace.len() == 0 {
        0
    } else {
        count_occurrences(trace.drop_last(), needle) + if trace.last() == needle {
            1nat
        } else {
            0nat
        }
    }
}

/// Whether `e` spawns a task under `label`, whatever its class.
pub open spec fn spawns_label(e: Event, label: TaskLabel) -> bool {
    e matches Event::SpawnTask { label: l, .. } && l == label
}

/// How many tasks `trace` spawns under `label`, whatever their class.
pub open spec fn count_spawned(trace: Seq<Event>, label: TaskLabel) -> nat
    decreases trace.len(),
{
    if trace.len() == 0 {
        0
    } else {
        count_spawned(trace.drop_last(), label) + if spawns_label(trace.last(), label) {
            1nat
        } else {
            0nat
        }
    }
}

/// Occurrence counting steps through `push`.
pub broadcast proof fn lemma_count_occurrences_push(trace: Seq<Event>, needle: Event, e: Event)
    ensures
        #[trigger] count_occurrences(trace.push(e), needle) == count_occurrences(trace, needle)
            + if e == needle { 1nat } else { 0nat },
{
    assert(trace.push(e).drop_last() =~= trace);
}

/// Spawn counting steps through `push`.
pub broadcast proof fn lemma_count_spawned_push(trace: Seq<Event>, label: TaskLabel, e: Event)
    ensures
        #[trigger] count_spawned(trace.push(e), label) == count_spawned(trace, label)
            + if spawns_label(e, label) { 1nat } else { 0nat },
{
    assert(trace.push(e).drop_last() =~= trace);
}

} // verus!
