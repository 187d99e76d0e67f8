use pontem_node::config::{Configuration, PoolLimits, Role, WasmExecutionMethod};
use pontem_node::error::AssemblyError;
use pontem_node::events::{Event, ImportQueueKind, TaskClass, TaskLabel};
use pontem_node::inherents::AuthorId;
use pontem_node::sealing::{Sealing, StreamSource};
use pontem_node::service::{new_dev, new_partial, start_node};

fn base_config(role: Role) -> Configuration {
    Configuration {
        role,
        telemetry_endpoints: None,
        transaction_pool: PoolLimits {
            ready_count: 8192,
            ready_bytes: 20_480_000,
            future_count: 512,
            future_bytes: 1_024_000,
        },
        prometheus: false,
        wasm_method: WasmExecutionMethod::Compiled,
        default_heap_pages: None,
        max_runtime_instances: 8,
        offchain_worker_enabled: false,
        force_authoring: false,
    }
}

fn count(events: &[Event], needle: Event) -> usize {
    events.iter().filter(|e| **e == needle).count()
}

#[test]
fn light_rejection() {
    let err = start_node(base_config(Role::Light), base_config(Role::Full), 2000)
        .err()
        .expect("light role must be rejected");
    assert!(matches!(err, AssemblyError::LightUnsupported));
    assert_eq!(err.message(), "Light client not supported!");
}

#[test]
fn partial_dev_has_select_chain() {
    let partial = new_partial(&base_config(Role::Authority), true).unwrap();
    assert!(partial.select_chain.is_some());
    assert_eq!(partial.import_queue, ImportQueueKind::ManualSeal);
}

#[test]
fn partial_non_dev_has_no_select_chain() {
    let partial = new_partial(&base_config(Role::Authority), false).unwrap();
    assert!(partial.select_chain.is_none());
    assert_eq!(partial.import_queue, ImportQueueKind::Nimbus);
}

#[test]
fn no_telemetry_task_without_endpoints() {
    let partial = new_partial(&base_config(Role::Full), false).unwrap();
    assert!(partial.telemetry.is_none());
    let telemetry_spawn = Event::SpawnTask {
        class: TaskClass::Ordinary,
        label: TaskLabel::Telemetry,
    };
    assert_eq!(count(&partial.events, telemetry_spawn), 0);
}

#[test]
fn no_telemetry_task_with_empty_endpoints() {
    let mut config = base_config(Role::Full);
    config.telemetry_endpoints = Some(Vec::new());
    let partial = new_partial(&config, false).unwrap();
    assert!(partial.telemetry.is_none());
    let telemetry_spawn = Event::SpawnTask {
        class: TaskClass::Ordinary,
        label: TaskLabel::Telemetry,
    };
    assert_eq!(count(&partial.events, telemetry_spawn), 0);
}

#[test]
fn one_telemetry_task_with_endpoints() {
    let mut config = base_config(Role::Full);
    config.telemetry_endpoints = Some(vec!["wss://telemetry.example.net/submit".to_string()]);
    let partial = new_partial(&config, false).unwrap();
    assert!(partial.telemetry.is_some());
    let telemetry_spawn = Event::SpawnTask {
        class: TaskClass::Ordinary,
        label: TaskLabel::Telemetry,
    };
    assert_eq!(count(&partial.events, telemetry_spawn), 1);
}

#[test]
fn telemetry_worker_buffer_depth_is_fixed() {
    let mut config = base_config(Role::Full);
    config.telemetry_endpoints = Some(vec!["wss://telemetry.example.net/submit".to_string()]);
    let partial = new_partial(&config, false).unwrap();
    assert_eq!(count(&partial.events, Event::BuildTelemetryWorker { buffer_depth: 16 }), 1);

    let silent = new_partial(&base_config(Role::Full), false).unwrap();
    assert!(!silent.events.iter().any(|e| matches!(e, Event::BuildTelemetryWorker { .. })));
}

#[test]
fn dev_instant_sealing_is_demand_driven() {
    let node = new_dev(base_config(Role::Authority), AuthorId(1), Sealing::Instant).unwrap();
    let authorship = node.authorship.expect("authority spawns the sealing loop");
    assert_eq!(authorship.stream.source, StreamSource::PoolImportNotifications);
    assert!(!authorship.stream.command.create_empty);
    assert!(!authorship.stream.command.finalize);
    assert!(authorship.stream.command.parent_hash.is_none());
    assert!(!authorship.stream.command.reply_channel);
    assert!(!authorship.proposer_proof_recording);
    assert_eq!(authorship.author, AuthorId(1));
}

#[test]
fn dev_interval_sealing_is_time_driven() {
    let node = new_dev(base_config(Role::Authority), AuthorId(1), Sealing::Interval(200)).unwrap();
    let authorship = node.authorship.expect("authority spawns the sealing loop");
    assert_eq!(authorship.stream.source, StreamSource::Timer { period_millis: 200 });
    assert!(authorship.stream.command.create_empty);
    assert!(!authorship.stream.command.finalize);
}

#[test]
fn dev_authority_spawns_authorship_before_network_start() {
    let node = new_dev(base_config(Role::Authority), AuthorId(7), Sealing::Instant).unwrap();
    let spawn = Event::SpawnTask {
        class: TaskClass::EssentialBlocking,
        label: TaskLabel::AuthorshipTask,
    };
    assert_eq!(count(&node.events, spawn), 1);
    let spawn_at = node.events.iter().position(|e| *e == spawn).unwrap();
    let start_at = node.events.iter().position(|e| *e == Event::StartNetwork).unwrap();
    assert!(spawn_at < start_at);
    assert_eq!(node.events.last(), Some(&Event::StartNetwork));
}

#[test]
fn dev_non_authority_has_no_authorship() {
    let node = new_dev(base_config(Role::Full), AuthorId(7), Sealing::Instant).unwrap();
    assert!(node.authorship.is_none());
    assert!(!node.events.iter().any(|e| matches!(e, Event::SpawnTask {
        label: TaskLabel::AuthorshipTask,
        ..
    })));
    assert!(node.events.iter().any(|e| matches!(e, Event::BuildNetwork { .. })));
    assert!(node.events.iter().any(|e| matches!(e, Event::SpawnServiceTasks { .. })));
    assert_eq!(count(&node.events, Event::StartNetwork), 1);
    assert_eq!(node.events.last(), Some(&Event::StartNetwork));
}

#[test]
fn dev_network_has_no_block_announce_validation() {
    let node = new_dev(base_config(Role::Full), AuthorId(7), Sealing::Instant).unwrap();
    assert!(node.events.contains(&Event::BuildNetwork {
        block_announce_validation: false,
        warp_sync: false,
    }));
    assert_eq!(count(&node.events, Event::BuildRelayChainNode), 0);
}

#[test]
fn dev_offchain_workers_follow_the_flag() {
    let mut config = base_config(Role::Full);
    config.offchain_worker_enabled = true;
    let with = new_dev(config, AuthorId(7), Sealing::Instant).unwrap();
    assert_eq!(count(&with.events, Event::BuildOffchainWorkers), 1);

    let without = new_dev(base_config(Role::Full), AuthorId(7), Sealing::Instant).unwrap();
    assert_eq!(count(&without.events, Event::BuildOffchainWorkers), 0);
}

#[test]
fn dev_service_tasks_get_no_telemetry() {
    let mut config = base_config(Role::Full);
    config.telemetry_endpoints = Some(vec!["wss://telemetry.example.net/submit".to_string()]);
    let node = new_dev(config, AuthorId(7), Sealing::Instant).unwrap();
    assert!(node.events.contains(&Event::SpawnServiceTasks { telemetry: false }));
}

#[test]
fn collator_start_with_force_authoring() {
    let mut config = base_config(Role::Authority);
    config.force_authoring = true;
    let node = start_node(config, base_config(Role::Full), 2000).unwrap();
    let consensus = node.consensus.expect("authority builds the consensus engine");
    assert!(consensus.skip_prediction);
    assert!(consensus.proof_recording);
    assert_eq!(consensus.para_id, 2000);
    assert_eq!(count(&node.events, Event::StartCollator { para_id: 2000 }), 1);
    assert_eq!(count(&node.events, Event::StartNetwork), 1);
    assert_eq!(node.events.last(), Some(&Event::StartNetwork));
    let tasks_at = node
        .events
        .iter()
        .position(|e| matches!(e, Event::SpawnServiceTasks { .. }))
        .unwrap();
    let start_at = node.events.iter().position(|e| *e == Event::StartNetwork).unwrap();
    assert!(tasks_at < start_at);
}

#[test]
fn collator_without_force_authoring_keeps_prediction() {
    let node = start_node(base_config(Role::Authority), base_config(Role::Full), 2000).unwrap();
    let consensus = node.consensus.unwrap();
    assert!(!consensus.skip_prediction);
    assert!(consensus.proof_recording);
}

#[test]
fn full_node_start() {
    let node = start_node(base_config(Role::Full), base_config(Role::Full), 2000).unwrap();
    assert!(node.consensus.is_none());
    assert_eq!(count(&node.events, Event::BuildRelayChainNode), 1);
    assert_eq!(count(&node.events, Event::BuildBlockAnnounceValidator { para_id: 2000 }), 1);
    assert_eq!(count(&node.events, Event::StartFullNode { para_id: 2000 }), 1);
    assert_eq!(count(&node.events, Event::StartCollator { para_id: 2000 }), 0);
    assert!(!node.events.iter().any(|e| matches!(e, Event::BuildConsensus { .. })));
    assert_eq!(node.events.last(), Some(&Event::StartNetwork));
}

#[test]
fn executor_parameters_come_from_configuration() {
    let mut config = base_config(Role::Full);
    config.wasm_method = WasmExecutionMethod::Interpreted;
    config.default_heap_pages = Some(2048);
    config.max_runtime_instances = 16;
    let partial = new_partial(&config, false).unwrap();
    assert_eq!(
        partial.events.first(),
        Some(&Event::BuildExecutor {
            wasm_method: WasmExecutionMethod::Interpreted,
            default_heap_pages: Some(2048),
            max_runtime_instances: 16,
        })
    );
}

#[test]
fn collator_import_queue_is_nimbus() {
    let node = start_node(base_config(Role::Authority), base_config(Role::Full), 2000).unwrap();
    assert_eq!(count(&node.events, Event::BuildImportQueue { kind: ImportQueueKind::Nimbus }), 1);
    assert_eq!(
        count(&node.events, Event::BuildImportQueue { kind: ImportQueueKind::ManualSeal }),
        0
    );
}

#[test]
fn dev_import_queue_is_manual_seal() {
    let node = new_dev(base_config(Role::Authority), AuthorId(3), Sealing::Instant).unwrap();
    assert_eq!(
        count(&node.events, Event::BuildImportQueue { kind: ImportQueueKind::ManualSeal }),
        1
    );
    assert_eq!(count(&node.events, Event::BuildImportQueue { kind: ImportQueueKind::Nimbus }), 0);
}
