//! The invariants the assembly keeps, proved over the mode traces.
//!
//! Each lemma here quantifies over every configuration; together with the
//! factory contracts in [`crate::service`], which pin the returned trace to
//! the spec-level trace, these statements hold of every run.

use vstd::prelude::*;
use crate::config::{telemetry_active, Configuration};
use crate::events::{
    count_occurrences, count_spawned, lemma_count_occurrences_push, lemma_count_spawned_push,
    Event, ImportQueueKind, TaskClass, TaskLabel,
};
use crate::service::{dev_events, node_events, partial_events, TELEMETRY_BUFFER_DEPTH};

verus! {

broadcast use lemma_count_occurrences_push, lemma_count_spawned_push;

/// Telemetry law, phase 1: a telemetry worker is built — with its fixed
/// send-buffer depth — and a task labeled telemetry is spawned, each exactly
/// once when at least one endpoint is configured and never otherwise; the
/// one task spawned is an ordinary task.
pub proof fn lemma_telemetry_task_partial(c: Configuration, dev_service: bool)
    ensures
        count_occurrences(
            partial_events(c, dev_service),
            (Event::BuildTelemetryWorker { buffer_depth: TELEMETRY_BUFFER_DEPTH }),
        ) == if telemetry_active(c) {
            1nat
        } else {
            0nat
        },
        count_spawned(partial_events(c, dev_service), TaskLabel::Telemetry) == if telemetry_active(
            c,
        ) {
            1nat
        } else {
            0nat
        },
        count_occurrences(
            partial_events(c, dev_service),
            (Event::SpawnTask { class: TaskClass::Ordinary, label: TaskLabel::Telemetry }),
        ) == if telemetry_active(c) {
            1nat
        } else {
            0nat
        },
{
    assert(count_spawned(Seq::<Event>::empty(), TaskLabel::Telemetry) == 0);
    assert(count_occurrences(
        Seq::<Event>::empty(),
        (Event::SpawnTask { class: TaskClass::Ordinary, label: TaskLabel::Telemetry }),
    ) == 0);
    assert(count_occurrences(
        Seq::<Event>::empty(),
        (Event::BuildTelemetryWorker { buffer_depth: TELEMETRY_BUFFER_DEPTH }),
    ) == 0);
}

/// Telemetry law, collator and full-node starts: the finalizer spawns no
/// further telemetry task, so the phase-1 count is the count of the whole
/// trace.
pub proof fn lemma_telemetry_task_node(c: Configuration, para_id: u32)
    ensures
        count_spawned(node_events(c, para_id), TaskLabel::Telemetry) == if telemetry_active(c) {
            1nat
        } else {
            0nat
        },
{
    lemma_telemetry_task_partial(c, false);
}

/// Telemetry law, dev starts: the dev finalizer spawns only the authorship
/// task, so the phase-1 telemetry count again carries over.
pub proof fn lemma_telemetry_task_dev(c: Configuration)
    ensures
        count_spawned(dev_events(c), TaskLabel::Telemetry) == if telemetry_active(c) {
            1nat
        } else {
            0nat
        },
{
    lemma_telemetry_task_partial(c, true);
}

/// Dev authorship law: for an authority, exactly one essential-blocking
/// task labeled authorship is spawned, it stands strictly before the common
/// service tasks — and so before the network start, which is the unique
/// last step; for any other role no authorship task is spawned at all.
pub proof fn lemma_dev_authorship_task(c: Configuration)
    ensures
        count_spawned(dev_events(c), TaskLabel::AuthorshipTask) == if c.role is Authority {
            1nat
        } else {
            0nat
        },
        count_occurrences(
            dev_events(c),
            (Event::SpawnTask { class: TaskClass::EssentialBlocking, label: TaskLabel::AuthorshipTask }),
        ) == if c.role is Authority {
            1nat
        } else {
            0nat
        },
        count_occurrences(dev_events(c), Event::StartNetwork) == 1,
        dev_events(c).last() == Event::StartNetwork,
        c.role is Authority ==> exists|i: int, j: int|
            0 <= i < j < dev_events(c).len() && dev_events(c)[i] == (Event::SpawnTask {
                class: TaskClass::EssentialBlocking,
                label: TaskLabel::AuthorshipTask,
            }) && dev_events(c)[j] == (Event::SpawnServiceTasks { telemetry: false }),
{
    let spawn_event = Event::SpawnTask {
        class: TaskClass::EssentialBlocking,
        label: TaskLabel::AuthorshipTask,
    };
    assert(count_spawned(Seq::<Event>::empty(), TaskLabel::AuthorshipTask) == 0);
    assert(count_occurrences(Seq::<Event>::empty(), spawn_event) == 0);
    assert(count_occurrences(Seq::<Event>::empty(), Event::StartNetwork) == 0);
    if c.role is Authority {
        let t0 = partial_events(c, true).push(
            Event::BuildNetwork { block_announce_validation: false, warp_sync: false },
        );
        let t1 = if c.offchain_worker_enabled {
            t0.push(Event::BuildOffchainWorkers)
        } else {
            t0
        };
        let t2 = t1.push(spawn_event);
        let t3 = t2.push(Event::SpawnServiceTasks { telemetry: false });
        assert(dev_events(c) == t3.push(Event::StartNetwork));
        let i = t1.len() as int;
        assert(dev_events(c)[i] == spawn_event);
        assert(dev_events(c)[i + 1] == (Event::SpawnServiceTasks { telemetry: false }));
        assert(0 <= i < i + 1 < dev_events(c).len());
    }
}

/// Network-start law, collator and full-node starts: the network is started
/// exactly once, as the unique last step, and only after the common service
/// tasks are spawned.
pub proof fn lemma_node_network_start(c: Configuration, para_id: u32)
    ensures
        count_occurrences(node_events(c, para_id), Event::StartNetwork) == 1,
        node_events(c, para_id).last() == Event::StartNetwork,
        exists|i: int|
            0 <= i < node_events(c, para_id).len() - 1 && node_events(c, para_id)[i] == (
            Event::SpawnServiceTasks { telemetry: telemetry_active(c) }),
{
    assert(count_occurrences(Seq::<Event>::empty(), Event::StartNetwork) == 0);
    let t0 = partial_events(c, false).push(Event::BuildRelayChainNode).push(
        Event::BuildBlockAnnounceValidator { para_id },
    ).push(Event::BuildNetwork { block_announce_validation: true, warp_sync: false });
    let t1 = t0.push(Event::SpawnServiceTasks { telemetry: telemetry_active(c) });
    let i = t0.len() as int;
    assert(node_events(c, para_id)[i] == (Event::SpawnServiceTasks {
        telemetry: telemetry_active(c),
    }));
    assert(0 <= i < node_events(c, para_id).len() - 1);
}

/// Relay-chain law: a relay-chain full node is built exactly once in a
/// collator or full-node start, and never in a dev start.
pub proof fn lemma_relay_chain_presence(c: Configuration, para_id: u32)
    ensures
        count_occurrences(node_events(c, para_id), Event::BuildRelayChainNode) == 1,
        count_occurrences(dev_events(c), Event::BuildRelayChainNode) == 0,
{
    assert(count_occurrences(Seq::<Event>::empty(), Event::BuildRelayChainNode) == 0);
}

/// Import-queue law: the queue built in phase 1 always matches the
/// authorship strategy of the finalizer that consumes it — nimbus for a
/// relay-chain-backed start, manual-seal for a dev start.
pub proof fn lemma_import_queue_matches_mode(c: Configuration, para_id: u32)
    ensures
        count_occurrences(
            node_events(c, para_id),
            (Event::BuildImportQueue { kind: ImportQueueKind::Nimbus }),
        ) == 1,
        count_occurrences(
            node_events(c, para_id),
            (Event::BuildImportQueue { kind: ImportQueueKind::ManualSeal }),
        ) == 0,
        count_occurrences(
            dev_events(c),
            (Event::BuildImportQueue { kind: ImportQueueKind::ManualSeal }),
        ) == 1,
        count_occurrences(
            dev_events(c),
            (Event::BuildImportQueue { kind: ImportQueueKind::Nimbus }),
        ) == 0,
{
    assert(count_occurrences(
        Seq::<Event>::empty(),
        (Event::BuildImportQueue { kind: ImportQueueKind::Nimbus }),
    ) == 0);
    assert(count_occurrences(
        Seq::<Event>::empty(),
        (Event::BuildImportQueue { kind: ImportQueueKind::ManualSeal }),
    ) == 0);
}

/// Mode-dispatch law: a relay-chain-backed start starts the collator loop —
/// with a consensus engine whose prediction skip equals the force-authoring
/// flag — exactly when the role is authority, and the passive follower
/// otherwise; a dev start starts neither.
pub proof fn lemma_mode_dispatch(c: Configuration, para_id: u32)
    ensures
        count_occurrences(node_events(c, para_id), (Event::StartCollator { para_id }))
            == if c.role is Authority {
            1nat
        } else {
            0nat
        },
        count_occurrences(node_events(c, para_id), (Event::StartFullNode { para_id }))
            == if c.role is Authority {
            0nat
        } else {
            1nat
        },
        count_occurrences(
            node_events(c, para_id),
            (Event::BuildConsensus {
                para_id,
                skip_prediction: c.force_authoring,
                proof_recording: true,
            }),
        ) == if c.role is Authority {
            1nat
        } else {
            0nat
        },
        count_occurrences(dev_events(c), (Event::StartCollator { para_id })) == 0,
        count_occurrences(dev_events(c), (Event::StartFullNode { para_id })) == 0,
{
    assert(count_occurrences(Seq::<Event>::empty(), (Event::StartCollator { para_id })) == 0);
    assert(count_occurrences(Seq::<Event>::empty(), (Event::StartFullNode { para_id })) == 0);
    assert(count_occurrences(
        Seq::<Event>::empty(),
        (Event::BuildConsensus { para_id, skip_prediction: c.force_authoring, proof_recording: true }),
    ) == 0);
}

/// Select-chain law: the longest-chain selector is built exactly once in a
/// dev start and never in a relay-chain-backed start.
pub proof fn lemma_select_chain_only_in_dev(c: Configuration, para_id: u32)
    ensures
        count_occurrences(dev_events(c), Event::BuildSelectChain) == 1,
        count_occurrences(node_events(c, para_id), Event::BuildSelectChain) == 0,
{
    assert(count_occurrences(Seq::<Event>::empty(), Event::BuildSelectChain) == 0);
}

} // verus!
