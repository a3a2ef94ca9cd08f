use blueprint_runner::config::{load, Address, ContextConfig, Error, Protocol, ProtocolSettings};
use blueprint_runner::error::RunnerError;

fn address(byte: u8) -> Address {
    Address { bytes: [byte; 20] }
}

fn base_config(protocol: Protocol) -> ContextConfig {
    ContextConfig {
        test_mode: false,
        http_rpc_url: "http://127.0.0.1:9944".to_string(),
        ws_rpc_url: "ws://127.0.0.1:9944".to_string(),
        keystore_uri: "./keystore".to_string(),
        data_dir: Some("./data".to_string()),
        protocol,
        blueprint_id: None,
        service_id: None,
        registry_coordinator: None,
        operator_state_retriever: None,
        delegation_manager: None,
        service_manager: None,
        stake_registry: None,
        strategy_manager: None,
        avs_directory: None,
        rewards_coordinator: None,
        operator_registry: None,
        network_registry: None,
        base_delegator: None,
        network_opt_in_service: None,
        vault_opt_in_service: None,
        slasher: None,
        veto_slasher: None,
    }
}

#[test]
fn load_demands_the_blueprint_id() {
    let config = base_config(Protocol::Tangle);
    assert!(matches!(load(config), Err(Error::MissingBlueprintId)));
}

#[test]
fn load_demands_the_service_id() {
    let mut config = base_config(Protocol::Tangle);
    config.blueprint_id = Some(12);
    assert!(matches!(load(config), Err(Error::MissingServiceId)));
}

#[test]
fn load_builds_a_tangle_environment() {
    let mut config = base_config(Protocol::Tangle);
    config.blueprint_id = Some(12);
    config.service_id = Some(3);
    let env = load(config).unwrap();
    assert_eq!(env.protocol, Protocol::Tangle);
    assert_eq!(env.http_rpc_endpoint, "http://127.0.0.1:9944");
    assert_eq!(env.ws_rpc_endpoint, "ws://127.0.0.1:9944");
    assert_eq!(env.keystore_uri, "./keystore");
    assert_eq!(env.data_dir.as_deref(), Some("./data"));
    match env.protocol_settings {
        ProtocolSettings::Tangle(settings) => {
            assert_eq!(settings.blueprint_id, 12);
            assert_eq!(settings.service_id, Some(3));
        }
        other => panic!("expected substrate-style settings, got {other:?}"),
    }
}

#[test]
fn load_demands_every_evm_restaking_address() {
    let mut config = base_config(Protocol::Eigenlayer);
    config.registry_coordinator = Some(address(1));
    config.operator_state_retriever = Some(address(2));
    config.delegation_manager = Some(address(3));
    config.service_manager = Some(address(4));
    config.stake_registry = Some(address(5));
    config.strategy_manager = Some(address(6));
    config.avs_directory = Some(address(7));
    // rewards_coordinator is still missing
    assert!(matches!(load(config.clone()), Err(Error::MissingEigenlayerContractAddresses)));

    config.rewards_coordinator = Some(address(8));
    let env = load(config).unwrap();
    match env.protocol_settings {
        ProtocolSettings::Eigenlayer(addresses) => {
            assert_eq!(addresses.registry_coordinator_address.bytes, [1u8; 20]);
            assert_eq!(addresses.rewards_coordinator_address.bytes, [8u8; 20]);
        }
        other => panic!("expected EVM-restaking settings, got {other:?}"),
    }
}

#[test]
fn load_demands_every_alternate_restaking_address() {
    let mut config = base_config(Protocol::Symbiotic);
    config.operator_registry = Some(address(1));
    config.network_registry = Some(address(2));
    config.base_delegator = Some(address(3));
    config.network_opt_in_service = Some(address(4));
    config.vault_opt_in_service = Some(address(5));
    config.slasher = Some(address(6));
    // veto_slasher is still missing
    assert!(matches!(load(config.clone()), Err(Error::MissingSymbioticContractAddresses)));

    config.veto_slasher = Some(address(7));
    let env = load(config).unwrap();
    assert!(matches!(env.protocol_settings, ProtocolSettings::Symbiotic(_)));
}

#[test]
fn runner_errors_name_their_kind() {
    assert_eq!(RunnerError::Recv.kind(), "recv");
    assert_eq!(RunnerError::NotActiveOperator.kind(), "not an active operator");
    assert_eq!(
        RunnerError::InvalidProtocol("Expected Tangle protocol".to_string()).kind(),
        "invalid protocol"
    );
    assert_eq!(RunnerError::Tangle("x".to_string()).kind(), "tangle");
    assert_eq!(RunnerError::Eigenlayer("x".to_string()).kind(), "eigenlayer");
    assert_eq!(RunnerError::Symbiotic("x".to_string()).kind(), "symbiotic");
}

#[test]
fn defaults_are_empty_and_unset() {
    let env = blueprint_runner::config::GadgetConfiguration::default();
    assert_eq!(env.protocol, Protocol::Tangle);
    assert!(matches!(env.protocol_settings, ProtocolSettings::Unset));
    assert!(env.http_rpc_endpoint.is_empty());
    assert!(!env.test_mode);

    let targets = blueprint_runner::tangle::PriceTargets::default();
    assert_eq!(targets.cpu, 0);
    assert_eq!(targets.mem, 0);
    assert_eq!(targets.storage_hdd, 0);
    assert_eq!(targets.storage_ssd, 0);
    assert_eq!(targets.storage_nvme, 0);
}
