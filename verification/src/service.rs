//! The two-phase assembly: partial components shared by every mode, and the
//! three mode finalizers.
//!
//! Each factory returns the full trace of steps it decided on; the `ensures`
//! clauses pin that trace to the spec-level trace of the mode, so every
//! ordering and multiplicity claim in [`crate::laws`] holds of what the
//! executable code actually does.

use vstd::prelude::*;
use crate::config::{telemetry_active, Configuration, Role};
use crate::error::AssemblyError;
use crate::events::{Event, ImportQueueKind, TaskClass, TaskLabel};
use crate::inherents::AuthorId;
use crate::sealing::{commands_stream, commands_stream_of, CommandsStream, Sealing};

verus! {

/// The native runtime dispatcher the executor is built around: known method
/// names dispatch to the native runtime, everything else falls through to
/// Wasm.
#[derive(Clone, Copy, PartialEq, Eq, Debug)]
pub struct ParachainRuntimeExecutor;

/// A shared handle to the running telemetry worker.
#[derive(Clone, Copy, PartialEq, Eq, Debug)]
pub struct TelemetryHandle;

/// The dev-mode longest-chain selector wrapped around the backend.
#[derive(Clone, Copy, PartialEq, Eq, Debug)]
pub struct LongestChain;

/// What phase 1 hands every finalizer. The live handles (client, backend,
/// keystore container, task manager, transaction pool) are owned by the host
/// framework; the bundle records the decisions made about them.
#[derive(Debug)]
pub struct PartialComponents {
    /// Present exactly when telemetry endpoints are configured.
    pub telemetry: Option<TelemetryHandle>,
    /// Present exactly in dev mode.
    pub select_chain: Option<LongestChain>,
    /// The import-queue pipeline selected for the mode.
    pub import_queue: ImportQueueKind,
    /// The steps phase 1 performed, in order.
    pub events: Vec<Event>,
}

/// The nimbus parachain consensus engine, by the decisions that shape it.
#[derive(Clone, Copy, PartialEq, Eq, Debug)]
pub struct ConsensusPlan {
    pub para_id: u32,
    /// Skip the author-eligibility prediction; equal to the force-authoring
    /// flag.
    pub skip_prediction: bool,
    /// The proposer records a state-transition proof for the relay chain;
    /// always true for a collator.
    pub proof_recording: bool,
}

/// A started collator or full node: its trace, and the consensus engine when
/// the node authors.
#[derive(Debug)]
pub struct StartedNode {
    /// The steps the start performed, in order, ending with the network
    /// start.
    pub events: Vec<Event>,
    /// Present exactly for the authority role.
    pub consensus: Option<ConsensusPlan>,
}

/// The dev-mode authorship task: the manual-seal loop and what drives it.
#[derive(Clone, Copy, PartialEq, Eq, Debug)]
pub struct DevAuthorship {
    /// The basic proposer factory variant; dev mode records no proof.
    pub proposer_proof_recording: bool,
    /// The seal-command stream the loop consumes.
    pub stream: CommandsStream,
    /// The longest-chain selector taken from phase 1.
    pub select_chain: LongestChain,
    /// The author identity injected into every sealed block.
    pub author: AuthorId,
}

/// A started development node: its trace, and the authorship task when the
/// node authors.
#[derive(Debug)]
pub struct DevNode {
    /// The steps the start performed, in order, ending with the network
    /// start.
    pub events: Vec<Event>,
    /// Present exactly for the authority role.
    pub authorship: Option<DevAuthorship>,
}

/// The fixed send-buffer depth the telemetry worker is constructed with.
pub const TELEMETRY_BUFFER_DEPTH: u32 = 16;

/// The import queue each mode runs: manual-seal in dev mode, nimbus with a
/// timestamp-only inherent provider otherwise.
pub open spec fn import_queue_kind_of(dev_service: bool) -> ImportQueueKind {
    if dev_service {
        ImportQueueKind::ManualSeal
    } else {
        ImportQueueKind::Nimbus
    }
}

/// The trace of phase 1: executor, client parts, the telemetry worker task
/// when endpoints are configured, the transaction pool, the mode's import
/// queue, and — in dev mode only — the longest-chain selector.
pub open spec fn partial_events(c: Configuration, dev_service: bool) -> Seq<Event> {
    let trace = Seq::<Event>::empty().push(
        Event::BuildExecutor {
            wasm_method: c.wasm_method,
            default_heap_pages: c.default_heap_pages,
            max_runtime_instances: c.max_runtime_instances,
        },
    ).push(Event::BuildClientParts);
    let trace = if telemetry_active(c) {
        trace.push(Event::BuildTelemetryWorker { buffer_depth: TELEMETRY_BUFFER_DEPTH }).push(
            Event::SpawnTask { class: TaskClass::Ordinary, label: TaskLabel::Telemetry },
        )
    } else {
        trace
    };
    let trace = trace.push(
        Event::BuildTransactionPool { is_authority: c.role is Authority, prometheus: c.prometheus },
    ).push(Event::BuildImportQueue { kind: import_queue_kind_of(dev_service) });
    if dev_service {
        trace.push(Event::BuildSelectChain)
    } else {
        trace
    }
}

/// The trace of a collator or full-node start (after the light-client
/// rejection): phase 1 without dev features, the relay-chain full node, the
/// block-announce validator, the network, the common service tasks, the
/// mode-specific authorship, and the network start last.
pub open spec fn node_events(c: Configuration, para_id: u32) -> Seq<Event> {
    let trace = partial_events(c, false).push(Event::BuildRelayChainNode).push(
        Event::BuildBlockAnnounceValidator { para_id },
    ).push(Event::BuildNetwork { block_announce_validation: true, warp_sync: false }).push(
        Event::SpawnServiceTasks { telemetry: telemetry_active(c) },
    );
    let trace = if c.role is Authority {
        trace.push(
            Event::BuildConsensus {
                para_id,
                skip_prediction: c.force_authoring,
                proof_recording: true,
            },
        ).push(Event::StartCollator { para_id })
    } else {
        trace.push(Event::StartFullNode { para_id })
    };
    trace.push(Event::StartNetwork)
}

/// The trace of a dev start: phase 1 with dev features, a network with no
/// block-announce validation (no relay chain exists), offchain workers when
/// enabled, the authorship task for an authority, the common service tasks
/// with telemetry forcibly absent, and the network start last.
pub open spec fn dev_events(c: Configuration) -> Seq<Event> {
    let trace = partial_events(c, true).push(
        Event::BuildNetwork { block_announce_validation: false, warp_sync: false },
    );
    let trace = if c.offchain_worker_enabled {
        trace.push(Event::BuildOffchainWorkers)
    } else {
        trace
    };
    let trace = if c.role is Authority {
        trace.push(
            Event::SpawnTask { class: TaskClass::EssentialBlocking, label: TaskLabel::AuthorshipTask },
        )
    } else {
        trace
    };
    trace.push(Event::SpawnServiceTasks { telemetry: false }).push(Event::StartNetwork)
}

/// The consensus engine a collator gets: eligibility prediction is skipped
/// exactly when authoring is forced, and the proposer always records proofs.
pub open spec fn consensus_plan_of(para_id: u32, force_authoring: bool) -> ConsensusPlan {
    ConsensusPlan { para_id, skip_prediction: force_authoring, proof_recording: true }
}

/// Phase 1: the partial assembly shared by all three modes.
///
/// Decides the executor parameters, whether telemetry runs, the import
/// queue, and — in dev mode — the longest-chain selector, and returns the
/// bundle every finalizer consumes.
pub fn new_partial(config: &Configuration, dev_service: bool) -> (r: Result<
    PartialComponents,
    AssemblyError,
>)
    ensures
        r is Ok,
        r matches Ok(p) ==> {
            &&& ((p.telemetry is Some) <==> telemetry_active(*config))
            &&& ((p.select_chain is Some) <==> dev_service)
            &&& p.import_queue == import_queue_kind_of(dev_service)
            &&& p.events@ == partial_events(*config, dev_service)
        },
{
    let mut events: Vec<Event> = Vec::new();
    events.push(
        Event::BuildExecutor {
            wasm_method: config.wasm_method,
            default_heap_pages: config.default_heap_pages,
            max_runtime_instances: config.max_runtime_instances,
        },
    );
    events.push(Event::BuildClientParts);

    let telemetry = if config.has_telemetry() {
        events.push(Event::BuildTelemetryWorker { buffer_depth: TELEMETRY_BUFFER_DEPTH });
        events.push(Event::SpawnTask { class: TaskClass::Ordinary, label: TaskLabel::Telemetry });
        Some(TelemetryHandle)
    } else {
        None
    };

    events.push(
        Event::BuildTransactionPool {
            is_authority: config.role.is_authority(),
            prometheus: config.prometheus,
        },
    );

    let import_queue = if dev_service {
        ImportQueueKind::ManualSeal
    } else {
        ImportQueueKind::Nimbus
    };
    events.push(Event::BuildImportQueue { kind: import_queue });

    let select_chain = if dev_service {
        events.push(Event::BuildSelectChain);
        Some(LongestChain)
    } else {
        None
    };

    assert(events@ =~= partial_events(*config, dev_service));
    Ok(PartialComponents { telemetry, select_chain, import_queue, events })
}

/// Builds the nimbus consensus engine for a collator: a proof-recording
/// proposer factory, the relay-chain client and backend cloned from the
/// relay-chain full node, the keystore's synchronous view, and eligibility
/// prediction skipped exactly when authoring is forced. Each authoring round
/// assembles its inherents through
/// [`crate::inherents::collator_inherent_data_providers`].
pub fn build_consensus(para_id: u32, force_authoring: bool) -> (r: ConsensusPlan)
    ensures
        r == consensus_plan_of(para_id, force_authoring),
{
    ConsensusPlan { para_id, skip_prediction: force_authoring, proof_recording: true }
}

fn start_node_impl(parachain_config: Configuration, polkadot_config: Configuration, id: u32) -> (r:
    Result<StartedNode, AssemblyError>)
    ensures
        (r is Err) <==> (parachain_config.role is Light),
        r matches Err(e) ==> e is LightUnsupported,
        r matches Ok(n) ==> {
            &&& n.events@ == node_events(parachain_config, id)
            &&& ((n.consensus is Some) <==> (parachain_config.role is Authority))
            &&& n.consensus matches Some(plan) ==> plan == consensus_plan_of(
                id,
                parachain_config.force_authoring,
            )
        },
{
    if matches!(parachain_config.role, Role::Light) {
        return Err(AssemblyError::LightUnsupported);
    }

    // The relay-chain full node is the only consumer of the relay-chain
    // configuration.
    let _ = polkadot_config;

    let partial = match new_partial(&parachain_config, false) {
        Ok(p) => p,
        Err(e) => {
            return Err(e);
        },
    };
    let telemetry_on = partial.telemetry.is_some();
    let mut events = partial.events;

    events.push(Event::BuildRelayChainNode);
    events.push(Event::BuildBlockAnnounceValidator { para_id: id });
    events.push(Event::BuildNetwork { block_announce_validation: true, warp_sync: false });
    events.push(Event::SpawnServiceTasks { telemetry: telemetry_on });

    let consensus = if parachain_config.role.is_authority() {
        let plan = build_consensus(id, parachain_config.force_authoring);
        events.push(
            Event::BuildConsensus {
                para_id: id,
                skip_prediction: plan.skip_prediction,
                proof_recording: plan.proof_recording,
            },
        );
        events.push(Event::StartCollator { para_id: id });
        Some(plan)
    } else {
        events.push(Event::StartFullNode { para_id: id });
        None
    };

    events.push(Event::StartNetwork);
    assert(events@ =~= node_events(parachain_config, id));
    Ok(StartedNode { events, consensus })
}

/// Starts a collator or full node against a relay chain.
///
/// Rejects the light-client role before any resource is built; otherwise
/// the trace is exactly [`node_events`], the network start is its last step,
/// and a consensus engine exists exactly for the authority role.
pub fn start_node(parachain_config: Configuration, polkadot_config: Configuration, id: u32) -> (r:
    Result<StartedNode, AssemblyError>)
    ensures
        (r is Err) <==> (parachain_config.role is Light),
        r matches Err(e) ==> e is LightUnsupported,
        r matches Ok(n) ==> {
            &&& n.events@ == node_events(parachain_config, id)
            &&& ((n.consensus is Some) <==> (parachain_config.role is Authority))
            &&& n.consensus matches Some(plan) ==> plan == consensus_plan_of(
                id,
                parachain_config.force_authoring,
            )
        },
{
    start_node_impl(parachain_config, polkadot_config, id)
}

/// Starts a development node: no relay chain, manual sealing, mocked
/// parachain inherents.
///
/// The trace is exactly [`dev_events`]; an authorship task exists exactly
/// for the authority role, consumes the command stream of `sealing`, and
/// takes the longest-chain selector that phase 1 — invoked with the dev flag
/// set — always provides.
pub fn new_dev(config: Configuration, author_id: AuthorId, sealing: Sealing) -> (r: Result<
    DevNode,
    AssemblyError,
>)
    ensures
        r is Ok,
        r matches Ok(n) ==> {
            &&& n.events@ == dev_events(config)
            &&& ((n.authorship is Some) <==> (config.role is Authority))
            &&& n.authorship matches Some(a) ==> {
                &&& a.stream == commands_stream_of(sealing)
                &&& a.author == author_id
                &&& !a.proposer_proof_recording
            }
        },
{
    let partial = match new_partial(&config, true) {
        Ok(p) => p,
        Err(e) => {
            return Err(e);
        },
    };
    let maybe_select_chain = partial.select_chain;
    let mut events = partial.events;

    events.push(Event::BuildNetwork { block_announce_validation: false, warp_sync: false });

    if config.offchain_worker_enabled {
        events.push(Event::BuildOffchainWorkers);
    }

    let authorship = if config.role.is_authority() {
        let stream = commands_stream(&sealing);
        let select_chain = match maybe_select_chain {
            Some(sc) => sc,
            None => {
                // Phase 1 was invoked with the dev flag set, so the selector
                // is present.
                assert(false);
                LongestChain
            },
        };
        events.push(
            Event::SpawnTask { class: TaskClass::EssentialBlocking, label: TaskLabel::AuthorshipTask },
        );
        Some(
            DevAuthorship {
                proposer_proof_recording: false,
                stream,
                select_chain,
                author: author_id,
            },
        )
    } else {
        None
    };

    events.push(Event::SpawnServiceTasks { telemetry: false });
    events.push(Event::StartNetwork);
    assert(events@ =~= dev_events(config));
    Ok(DevNode { events, authorship })
}

} // verus!
