use pontem_node::config::{Configuration, PoolLimits, Role, WasmExecutionMethod};
use pontem_node::error::{map_relay_chain_error, AssemblyError, RelayChainError};
use pontem_node::inherents::{
    collator_inherent_data_providers, dev_inherent_data_providers, AuthorId, InherentError,
    ParachainInherent, RELAY_BLOCKS_PER_PARA_BLOCK, RELAY_OFFSET,
};
use pontem_node::sealing::{commands_stream, seal_command, BlockHash, Sealing, StreamSource};
use pontem_node::service::build_consensus;

#[test]
fn instant_seal_command_suppresses_empty_blocks() {
    let command = seal_command(&Sealing::Instant);
    assert!(!command.create_empty);
    assert!(!command.finalize);
    assert!(command.parent_hash.is_none());
    assert!(!command.reply_channel);
}

#[test]
fn interval_seal_command_produces_empty_blocks() {
    let command = seal_command(&Sealing::Interval(200));
    assert!(command.create_empty);
    assert!(!command.finalize);
    assert!(command.parent_hash.is_none());
    assert!(!command.reply_channel);
}

#[test]
fn commands_stream_sources_match_the_policy() {
    let instant = commands_stream(&Sealing::Instant);
    assert_eq!(instant.source, StreamSource::PoolImportNotifications);
    let interval = commands_stream(&Sealing::Interval(250));
    assert_eq!(interval.source, StreamSource::Timer { period_millis: 250 });
}

#[test]
fn mocked_parachain_inherent_values() {
    let providers = dev_inherent_data_providers(7, AuthorId(9));
    assert_eq!(providers.mock.current_para_block, 7);
    assert_eq!(providers.mock.relay_offset, 1000);
    assert_eq!(providers.mock.relay_blocks_per_para_block, 2);
    assert_eq!(providers.author, AuthorId(9));
}

#[test]
fn mocked_parachain_inherent_at_genesis_parent() {
    let providers = dev_inherent_data_providers(0, AuthorId(1));
    assert_eq!(providers.mock.current_para_block, 0);
    assert_eq!(providers.mock.relay_offset, RELAY_OFFSET);
    assert_eq!(providers.mock.relay_blocks_per_para_block, RELAY_BLOCKS_PER_PARA_BLOCK);
}

#[test]
fn synthetic_relay_height_advances_with_para_height() {
    let at_seven = dev_inherent_data_providers(7, AuthorId(1)).mock;
    assert_eq!(at_seven.relay_height(), 1014);
    let at_eight = dev_inherent_data_providers(8, AuthorId(1)).mock;
    assert_eq!(at_eight.relay_height(), at_seven.relay_height() + 2);
}

#[test]
fn collator_inherents_carry_the_created_inherent() {
    let inherent = ParachainInherent { relay_parent: BlockHash(42) };
    let providers = collator_inherent_data_providers(Some(inherent), AuthorId(5)).unwrap();
    assert_eq!(providers.parachain, inherent);
    assert_eq!(providers.author, AuthorId(5));
}

#[test]
fn collator_inherents_skip_the_round_without_an_inherent() {
    let err = collator_inherent_data_providers(None, AuthorId(5))
        .err()
        .expect("a missing parachain inherent fails the round");
    assert!(matches!(err, InherentError::ParachainInherentUnavailable));
    assert_eq!(err.message(), "Failed to create parachain inherent");
}

#[test]
fn relay_chain_sub_error_passes_through() {
    let inner = AssemblyError::Service("backend unavailable".to_string());
    let mapped = map_relay_chain_error(RelayChainError::Sub(inner));
    match mapped {
        AssemblyError::Service(text) => assert_eq!(text, "backend unavailable"),
        other => panic!("expected the service error to pass through, got {:?}", other),
    }
}

#[test]
fn relay_chain_other_error_keeps_only_its_text() {
    let mapped = map_relay_chain_error(RelayChainError::Other("connection refused".to_string()));
    match mapped {
        AssemblyError::Service(text) => assert_eq!(text, "connection refused"),
        other => panic!("expected a service error with the rendered text, got {:?}", other),
    }
}

#[test]
fn light_error_message_is_exact() {
    assert_eq!(AssemblyError::LightUnsupported.message(), "Light client not supported!");
}

#[test]
fn consensus_skip_prediction_equals_force_authoring() {
    let forced = build_consensus(2000, true);
    assert!(forced.skip_prediction);
    assert!(forced.proof_recording);
    assert_eq!(forced.para_id, 2000);

    let predicted = build_consensus(2000, false);
    assert!(!predicted.skip_prediction);
    assert!(predicted.proof_recording);
}

#[test]
fn role_is_authority_only_for_authorities() {
    assert!(Role::Authority.is_authority());
    assert!(!Role::Full.is_authority());
    assert!(!Role::Light.is_authority());
}

#[test]
fn has_telemetry_requires_a_non_empty_list() {
    let mut config = Configuration {
        role: Role::Full,
        telemetry_endpoints: None,
        transaction_pool: PoolLimits {
            ready_count: 1,
            ready_bytes: 1,
            future_count: 1,
            future_bytes: 1,
        },
        prometheus: false,
        wasm_method: WasmExecutionMethod::Interpreted,
        default_heap_pages: None,
        max_runtime_instances: 1,
        offchain_worker_enabled: false,
        force_authoring: false,
    };
    assert!(!config.has_telemetry());
    config.telemetry_endpoints = Some(Vec::new());
    assert!(!config.has_telemetry());
    config.telemetry_endpoints = Some(vec!["wss://telemetry.example.net/submit".to_string()]);
    assert!(config.has_telemetry());
}
