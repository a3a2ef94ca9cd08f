use std::cell::RefCell;

use blueprint_runner::config::{
    Address, EigenlayerContractAddresses, GadgetConfiguration, Protocol, ProtocolSettings,
    SymbioticContractAddresses, TangleInstanceSettings,
};
use blueprint_runner::eigenlayer::{
    register_bls_impl, requires_registration_bls_impl, BlsRegistrationParams, EigenlayerApi,
    EigenlayerError, Operator,
};
use blueprint_runner::error::RunnerError;
use blueprint_runner::runner::BlueprintConfig;
use blueprint_runner::symbiotic::{SymbioticApi, SymbioticConfig, SymbioticError};
use blueprint_runner::tangle::{
    register_impl, requires_registration_impl, OperatorPreferences, PriceTargets, TangleApi,
    TangleConfig, TangleError,
};

fn address(byte: u8) -> Address {
    Address { bytes: [byte; 20] }
}

fn tangle_env(blueprint_id: u64) -> GadgetConfiguration {
    GadgetConfiguration {
        http_rpc_endpoint: String::new(),
        ws_rpc_endpoint: String::new(),
        keystore_uri: String::new(),
        data_dir: None,
        protocol: Protocol::Tangle,
        protocol_settings: ProtocolSettings::Tangle(TangleInstanceSettings {
            blueprint_id,
            service_id: Some(0),
        }),
        test_mode: true,
    }
}

fn eigenlayer_env() -> GadgetConfiguration {
    GadgetConfiguration {
        http_rpc_endpoint: String::new(),
        ws_rpc_endpoint: String::new(),
        keystore_uri: String::new(),
        data_dir: None,
        protocol: Protocol::Eigenlayer,
        protocol_settings: ProtocolSettings::Eigenlayer(EigenlayerContractAddresses {
            registry_coordinator_address: address(1),
            operator_state_retriever_address: address(2),
            delegation_manager_address: address(3),
            service_manager_address: address(4),
            stake_registry_address: address(5),
            strategy_manager_address: address(6),
            avs_directory_address: address(7),
            rewards_coordinator_address: address(8),
        }),
        test_mode: true,
    }
}

fn symbiotic_env() -> GadgetConfiguration {
    GadgetConfiguration {
        http_rpc_endpoint: String::new(),
        ws_rpc_endpoint: String::new(),
        keystore_uri: String::new(),
        data_dir: None,
        protocol: Protocol::Symbiotic,
        protocol_settings: ProtocolSettings::Symbiotic(SymbioticContractAddresses {
            operator_registry_address: address(1),
            network_registry_address: address(2),
            base_delegator_address: address(3),
            network_opt_in_service_address: address(4),
            vault_opt_in_service_address: address(5),
            slasher_address: address(6),
            veto_slasher_address: address(7),
        }),
        test_mode: true,
    }
}

struct StubTangle {
    profile: Result<Option<Vec<u64>>, TangleError>,
    active: Result<bool, TangleError>,
    key: Result<Vec<u8>, TangleError>,
    submit: Result<(), TangleError>,
    submissions: RefCell<Vec<(u64, OperatorPreferences)>>,
}

impl StubTangle {
    fn healthy() -> Self {
        StubTangle {
            profile: Ok(None),
            active: Ok(true),
            key: Ok(vec![9u8; 33]),
            submit: Ok(()),
            submissions: RefCell::new(Vec::new()),
        }
    }
}

impl TangleApi for StubTangle {
    fn operator_profile_blueprints(&self) -> Result<Option<Vec<u64>>, TangleError> {
        self.profile.clone()
    }

    fn operator_delegation_active(&self) -> Result<bool, TangleError> {
        self.active.clone()
    }

    fn operator_ecdsa_key(&self) -> Result<Vec<u8>, TangleError> {
        self.key.clone()
    }

    fn submit_registration(
        &self,
        blueprint_id: u64,
        preferences: &OperatorPreferences,
        _registration_args: &Vec<u8>,
    ) -> Result<(), TangleError> {
        self.submissions.borrow_mut().push((blueprint_id, preferences.clone()));
        self.submit.clone()
    }
}

#[test]
fn tangle_requires_registration_without_profile() {
    let api = StubTangle::healthy();
    let (result, _) = requires_registration_impl(&api, &tangle_env(7));
    assert!(matches!(result, Ok(true)));
}

#[test]
fn tangle_requires_no_registration_when_listed() {
    let mut api = StubTangle::healthy();
    api.profile = Ok(Some(vec![3, 7, 11]));
    let (result, _) = requires_registration_impl(&api, &tangle_env(7));
    assert!(matches!(result, Ok(false)));
}

#[test]
fn tangle_requires_registration_when_not_listed() {
    let mut api = StubTangle::healthy();
    api.profile = Ok(Some(vec![3, 11]));
    let (result, _) = requires_registration_impl(&api, &tangle_env(7));
    assert!(matches!(result, Ok(true)));
}

#[test]
fn tangle_query_rejects_foreign_settings() {
    let api = StubTangle::healthy();
    let (result, _) = requires_registration_impl(&api, &eigenlayer_env());
    match result {
        Err(RunnerError::InvalidProtocol(message)) => {
            assert_eq!(message, "Expected Tangle protocol");
        }
        other => panic!("expected a protocol mismatch, got {other:?}"),
    }
}

#[test]
fn tangle_register_submits_key_and_price_targets() {
    let api = StubTangle::healthy();
    let price_targets = PriceTargets {
        cpu: 5,
        mem: 6,
        storage_hdd: 7,
        storage_ssd: 8,
        storage_nvme: 9,
    };
    let (result, _) = register_impl(price_targets, Vec::new(), &tangle_env(7), &api);
    assert!(result.is_ok());
    let submissions = api.submissions.borrow();
    assert_eq!(submissions.len(), 1);
    let (blueprint_id, preferences) = &submissions[0];
    assert_eq!(*blueprint_id, 7);
    assert_eq!(preferences.key, vec![9u8; 33]);
    assert_eq!(preferences.price_targets.cpu, 5);
    assert_eq!(preferences.price_targets.storage_nvme, 9);
}

#[test]
fn tangle_register_requires_active_operator() {
    let mut api = StubTangle::healthy();
    api.active = Ok(false);
    let (result, _) = register_impl(PriceTargets::default(), Vec::new(), &tangle_env(7), &api);
    assert!(matches!(result, Err(RunnerError::NotActiveOperator)));
    assert!(api.submissions.borrow().is_empty());
}

#[test]
fn tangle_register_wraps_network_errors() {
    let mut api = StubTangle::healthy();
    api.submit = Err(TangleError::Network("tx dropped".to_string()));
    let (result, _) = register_impl(PriceTargets::default(), Vec::new(), &tangle_env(7), &api);
    match result {
        Err(RunnerError::Tangle(message)) => assert_eq!(message, "tx dropped"),
        other => panic!("expected the wrapped network error, got {other:?}"),
    }
}

#[test]
fn tangle_config_gates_the_protocol() {
    let config = TangleConfig::new(PriceTargets::default(), StubTangle::healthy());
    let outcome = config.register(&symbiotic_env());
    assert!(matches!(outcome, Err(RunnerError::InvalidProtocol(_))));
    assert!(config.api.submissions.borrow().is_empty());
}

struct StubEigenlayer {
    registered: Result<bool, EigenlayerError>,
    first_tx: Result<(), EigenlayerError>,
    second_tx: Result<(), EigenlayerError>,
    now: Option<u64>,
    operators: RefCell<Vec<Operator>>,
    bls_params: RefCell<Vec<BlsRegistrationParams>>,
}

impl StubEigenlayer {
    fn healthy() -> Self {
        StubEigenlayer {
            registered: Ok(false),
            first_tx: Ok(()),
            second_tx: Ok(()),
            now: Some(1_000),
            operators: RefCell::new(Vec::new()),
            bls_params: RefCell::new(Vec::new()),
        }
    }
}

impl EigenlayerApi for StubEigenlayer {
    fn operator_address(&self) -> Result<Address, EigenlayerError> {
        Ok(address(42))
    }

    fn is_operator_registered(&self, _operator: &Address) -> Result<bool, EigenlayerError> {
        self.registered.clone()
    }

    fn now_unix_secs(&self) -> Option<u64> {
        self.now
    }

    fn register_as_operator(&self, operator: &Operator) -> Result<(), EigenlayerError> {
        self.operators.borrow_mut().push(operator.clone());
        self.first_tx.clone()
    }

    fn register_with_avs_registry_coordinator(
        &self,
        params: &BlsRegistrationParams,
    ) -> Result<(), EigenlayerError> {
        self.bls_params.borrow_mut().push(params.clone());
        self.second_tx.clone()
    }
}

#[test]
fn eigenlayer_query_reads_the_registry() {
    let mut api = StubEigenlayer::healthy();
    api.registered = Ok(true);
    let (result, _) = requires_registration_bls_impl(&eigenlayer_env(), &api);
    assert!(matches!(result, Ok(false)));
    api.registered = Ok(false);
    let (result, _) = requires_registration_bls_impl(&eigenlayer_env(), &api);
    assert!(matches!(result, Ok(true)));
}

#[test]
fn eigenlayer_query_rejects_foreign_settings() {
    let api = StubEigenlayer::healthy();
    let (result, _) = requires_registration_bls_impl(&tangle_env(1), &api);
    match result {
        Err(RunnerError::InvalidProtocol(message)) => {
            assert_eq!(message, "Expected Eigenlayer protocol");
        }
        other => panic!("expected a protocol mismatch, got {other:?}"),
    }
}

#[test]
fn eigenlayer_register_sends_both_transactions() {
    let api = StubEigenlayer::healthy();
    let (result, _) = register_bls_impl(&eigenlayer_env(), address(2), address(3), &api);
    assert!(result.is_ok());
    let operators = api.operators.borrow();
    assert_eq!(operators.len(), 1);
    assert_eq!(operators[0].address.bytes, [42u8; 20]);
    assert_eq!(operators[0].earnings_receiver_address.bytes, [2u8; 20]);
    assert_eq!(operators[0].delegation_approver_address.bytes, [3u8; 20]);
    assert_eq!(operators[0].staker_opt_out_window_blocks, 50400);
    let params = api.bls_params.borrow();
    assert_eq!(params.len(), 1);
    assert_eq!(params[0].digest_hash, vec![0x02u8; 32]);
    assert_eq!(params[0].sig_expiry_secs, 1_000 + 86_400);
    assert_eq!(params[0].quorum_numbers, vec![0u8]);
}

#[test]
fn eigenlayer_second_transaction_needs_the_first() {
    let mut api = StubEigenlayer::healthy();
    api.first_tx = Err(EigenlayerError::ElContracts("reverted".to_string()));
    let (result, _) = register_bls_impl(&eigenlayer_env(), address(2), address(3), &api);
    match result {
        Err(RunnerError::Eigenlayer(message)) => assert_eq!(message, "reverted"),
        other => panic!("expected the wrapped contract error, got {other:?}"),
    }
    assert_eq!(api.operators.borrow().len(), 1);
    assert!(api.bls_params.borrow().is_empty(), "the second transaction was never attempted");
}

#[test]
fn eigenlayer_expiry_for_a_clock_before_the_epoch() {
    let mut api = StubEigenlayer::healthy();
    api.now = None;
    let (result, _) = register_bls_impl(&eigenlayer_env(), address(2), address(3), &api);
    assert!(result.is_ok());
    assert_eq!(api.bls_params.borrow()[0].sig_expiry_secs, 0);
}

struct StubSymbiotic {
    entity: Result<bool, SymbioticError>,
    receipt: Result<bool, SymbioticError>,
    registrations: RefCell<usize>,
}

impl SymbioticApi for StubSymbiotic {
    fn operator_address(&self) -> Result<Address, SymbioticError> {
        Ok(address(11))
    }

    fn is_entity(&self, _operator: &Address) -> Result<bool, SymbioticError> {
        self.entity.clone()
    }

    fn register_operator(&self) -> Result<bool, SymbioticError> {
        *self.registrations.borrow_mut() += 1;
        self.receipt.clone()
    }
}

#[test]
fn symbiotic_query_reads_the_entity_flag() {
    let api = StubSymbiotic {
        entity: Ok(true),
        receipt: Ok(true),
        registrations: RefCell::new(0),
    };
    let config = SymbioticConfig::new(api);
    assert!(matches!(config.requires_registration(&symbiotic_env()), Ok(false)));
}

#[test]
fn symbiotic_register_checks_the_receipt() {
    let api = StubSymbiotic {
        entity: Ok(false),
        receipt: Ok(false),
        registrations: RefCell::new(0),
    };
    let config = SymbioticConfig::new(api);
    match config.register(&symbiotic_env()) {
        Err(RunnerError::Symbiotic(message)) => {
            assert_eq!(message, "operator registration transaction failed");
        }
        other => panic!("expected the failed-receipt error, got {other:?}"),
    }
    assert_eq!(*config.api.registrations.borrow(), 1);

    let api = StubSymbiotic {
        entity: Ok(false),
        receipt: Ok(true),
        registrations: RefCell::new(0),
    };
    let config = SymbioticConfig::new(api);
    assert!(config.register(&symbiotic_env()).is_ok());
}

#[test]
fn symbiotic_register_rejects_foreign_settings() {
    let api = StubSymbiotic {
        entity: Ok(false),
        receipt: Ok(true),
        registrations: RefCell::new(0),
    };
    let config = SymbioticConfig::new(api);
    match config.register(&tangle_env(1)) {
        Err(RunnerError::InvalidProtocol(message)) => {
            assert_eq!(message, "Expected Symbiotic protocol");
        }
        other => panic!("expected a protocol mismatch, got {other:?}"),
    }
    assert_eq!(*config.api.registrations.borrow(), 0);
}
