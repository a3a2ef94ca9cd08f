use vstd::prelude::*;

verus! {

/// A 20-byte EVM account or contract address.
#[derive(Debug, Clone, Copy)]
pub struct Address {
    pub bytes: [u8; 20],
}

/// The restaking protocol a runner instance targets.
#[derive(Debug, Clone, Copy, PartialEq, Eq, Structural)]
pub enum Protocol {
    Tangle,
    Eigenlayer,
    Symbiotic,
}

impl Default for Protocol {
    fn default() -> (r: Self)
        ensures
            r == Protocol::Tangle,
    {
        Protocol::Tangle
    }
}

/// Substrate-style instance settings: which blueprint and service this
/// operator serves.
#[derive(Debug, Clone, Copy)]
pub struct TangleInstanceSettings {
    pub blueprint_id: u64,
    pub service_id: Option<u64>,
}

/// The contract addresses an EVM-restaking deployment is reached through.
#[derive(Debug, Clone, Copy)]
pub struct EigenlayerContractAddresses {
    pub registry_coordinator_address: Address,
    pub operator_state_retriever_address: Address,
    pub delegation_manager_address: Address,
    pub service_manager_address: Address,
    pub stake_registry_address: Address,
    pub strategy_manager_address: Address,
    pub avs_directory_address: Address,
    pub rewards_coordinator_address: Address,
}

/// The contract addresses of an alternate-restaking deployment.
#[derive(Debug, Clone, Copy)]
pub struct SymbioticContractAddresses {
    pub operator_registry_address: Address,
    pub network_registry_address: Address,
    pub base_delegator_address: Address,
    pub network_opt_in_service_address: Address,
    pub vault_opt_in_service_address: Address,
    pub slasher_address: Address,
    pub veto_slasher_address: Address,
}

/// Protocol-specific settings: exactly one variant per supported protocol.
#[derive(Debug, Clone, Copy)]
pub enum ProtocolSettings {
    Unset,
    Tangle(TangleInstanceSettings),
    Eigenlayer(EigenlayerContractAddresses),
    Symbiotic(SymbioticContractAddresses),
}

impl Default for ProtocolSettings {
    fn default() -> (r: Self)
        ensures
            r is Unset,
    {
        ProtocolSettings::Unset
    }
}

/// Whether the settings carry the variant that belongs to the protocol.
pub open spec fn settings_match(settings: ProtocolSettings, protocol: Protocol) -> bool {
    match protocol {
        Protocol::Tangle => settings is Tangle,
        Protocol::Eigenlayer => settings is Eigenlayer,
        Protocol::Symbiotic => settings is Symbiotic,
    }
}

/// The shared environment handed to every job, service and registration
/// adapter. Read-only from this crate's perspective.
#[derive(Debug, Clone)]
pub struct GadgetConfiguration {
    /// HTTP RPC endpoint of the host restaking network.
    pub http_rpc_endpoint: String,
    /// WS RPC endpoint of the host restaking network.
    pub ws_rpc_endpoint: String,
    /// Where the keystore holding the operator's keys lives.
    pub keystore_uri: String,
    /// Data directory reserved for this blueprint, if one was provided.
    pub data_dir: Option<String>,
    /// The protocol this instance targets.
    pub protocol: Protocol,
    /// Settings of that protocol.
    pub protocol_settings: ProtocolSettings,
    /// Whether the instance runs in test mode.
    pub test_mode: bool,
}

impl Default for GadgetConfiguration {
    /// An empty environment: no endpoints, the default protocol, no
    /// protocol settings yet.
    fn default() -> (r: Self)
        ensures
            r.http_rpc_endpoint@.len() == 0,
            r.ws_rpc_endpoint@.len() == 0,
            r.keystore_uri@.len() == 0,
            r.data_dir is None,
            r.protocol == Protocol::Tangle,
            r.protocol_settings is Unset,
            !r.test_mode,
    {
        GadgetConfiguration {
            http_rpc_endpoint: String::new(),
            ws_rpc_endpoint: String::new(),
            keystore_uri: String::new(),
            data_dir: None,
            protocol: Protocol::Tangle,
            protocol_settings: ProtocolSettings::Unset,
            test_mode: false,
        }
    }
}

/// Errors that can occur while assembling the configuration.
#[derive(Debug, Clone)]
pub enum Error {
    MissingTangleRpcEndpoint,
    MissingKeystoreUri,
    MissingBlueprintId,
    MissingServiceId,
    MalformedBlueprintId(String),
    MalformedServiceId(String),
    UnsupportedKeystoreUri(String),
    UnsupportedProtocol(String),
    NoSr25519Keypair,
    InvalidSr25519Keypair,
    NoEcdsaKeypair,
    InvalidEcdsaKeypair,
    TestSetup(String),
    MissingEigenlayerContractAddresses,
    MissingSymbioticContractAddresses,
    BadRpcConnection(String),
    ConfigurationError(String),
}

/// What the embedding program collected from its command line and
/// environment, before any validation.
#[derive(Debug, Clone)]
pub struct ContextConfig {
    pub test_mode: bool,
    pub http_rpc_url: String,
    pub ws_rpc_url: String,
    pub keystore_uri: String,
    pub data_dir: Option<String>,
    pub protocol: Protocol,
    pub blueprint_id: Option<u64>,
    pub service_id: Option<u64>,
    pub registry_coordinator: Option<Address>,
    pub operator_state_retriever: Option<Address>,
    pub delegation_manager: Option<Address>,
    pub service_manager: Option<Address>,
    pub stake_registry: Option<Address>,
    pub strategy_manager: Option<Address>,
    pub avs_directory: Option<Address>,
    pub rewards_coordinator: Option<Address>,
    pub operator_registry: Option<Address>,
    pub network_registry: Option<Address>,
    pub base_delegator: Option<Address>,
    pub network_opt_in_service: Option<Address>,
    pub vault_opt_in_service: Option<Address>,
    pub slasher: Option<Address>,
    pub veto_slasher: Option<Address>,
}

impl ContextConfig {
    /// All eight EVM-restaking contract addresses were provided.
    pub open spec fn eigenlayer_complete(&self) -> bool {
        &&& self.registry_coordinator is Some
        &&& self.operator_state_retriever is Some
        &&& self.delegation_manager is Some
        &&& self.service_manager is Some
        &&& self.stake_registry is Some
        &&& self.strategy_manager is Some
        &&& self.avs_directory is Some
        &&& self.rewards_coordinator is Some
    }

    /// All seven alternate-restaking contract addresses were provided.
    pub open spec fn symbiotic_complete(&self) -> bool {
        &&& self.operator_registry is Some
        &&& self.network_registry is Some
        &&& self.base_delegator is Some
        &&& self.network_opt_in_service is Some
        &&& self.vault_opt_in_service is Some
        &&& self.slasher is Some
        &&& self.veto_slasher is Some
    }
}

/// Loads the [`GadgetConfiguration`] from the collected settings.
///
/// Fails exactly when the settings that the chosen protocol needs are
/// absent; the endpoints and the keystore location are carried through
/// unchanged.
pub fn load(config: ContextConfig) -> (r: Result<GadgetConfiguration, Error>)
    ensures
        config.protocol is Tangle && config.blueprint_id is None
            ==> r matches Err(Error::MissingBlueprintId),
        config.protocol is Tangle && config.blueprint_id is Some && config.service_id is None
            ==> r matches Err(Error::MissingServiceId),
        config.protocol is Eigenlayer && !config.eigenlayer_complete()
            ==> r matches Err(Error::MissingEigenlayerContractAddresses),
        config.protocol is Symbiotic && !config.symbiotic_complete()
            ==> r matches Err(Error::MissingSymbioticContractAddresses),
        r matches Ok(g) ==> {
            &&& g.protocol == config.protocol
            &&& g.test_mode == config.test_mode
            &&& g.http_rpc_endpoint@ == config.http_rpc_url@
            &&& g.ws_rpc_endpoint@ == config.ws_rpc_url@
            &&& g.keystore_uri@ == config.keystore_uri@
            &&& g.data_dir == config.data_dir
        },
        r matches Ok(g) ==> (config.protocol is Tangle ==> {
            &&& g.protocol_settings matches ProtocolSettings::Tangle(s)
            &&& Some(s.blueprint_id) == config.blueprint_id
            &&& s.service_id == config.service_id
        }),
        config.protocol is Tangle && config.blueprint_id is Some && config.service_id is Some
            ==> r is Ok,
        r matches Ok(g) ==> (config.protocol is Eigenlayer
            ==> g.protocol_settings matches ProtocolSettings::Eigenlayer(_)),
        config.protocol is Eigenlayer && config.eigenlayer_complete() ==> r is Ok,
        r matches Ok(g) ==> (config.protocol is Symbiotic
            ==> g.protocol_settings matches ProtocolSettings::Symbiotic(_)),
        config.protocol is Symbiotic && config.symbiotic_complete() ==> r is Ok,
{
    let protocol_settings = match config.protocol {
        Protocol::Tangle => {
            let blueprint_id = match config.blueprint_id {
                Some(id) => id,
                None => {
                    return Err(Error::MissingBlueprintId);
                },
            };
            let service_id = match config.service_id {
                Some(id) => id,
                None => {
                    return Err(Error::MissingServiceId);
                },
            };
            ProtocolSettings::Tangle(TangleInstanceSettings {
                blueprint_id,
                service_id: Some(service_id),
            })
        },
        Protocol::Eigenlayer => {
            match (
                config.registry_coordinator,
                config.operator_state_retriever,
                config.delegation_manager,
                config.service_manager,
                config.stake_registry,
                config.strategy_manager,
                config.avs_directory,
                config.rewards_coordinator,
            ) {
                (
                    Some(registry_coordinator_address),
                    Some(operator_state_retriever_address),
                    Some(delegation_manager_address),
                    Some(service_manager_address),
                    Some(stake_registry_address),
                    Some(strategy_manager_address),
                    Some(avs_directory_address),
                    Some(rewards_coordinator_address),
                ) => ProtocolSettings::Eigenlayer(EigenlayerContractAddresses {
                    registry_coordinator_address,
                    operator_state_retriever_address,
                    delegation_manager_address,
                    service_manager_address,
                    stake_registry_address,
                    strategy_manager_address,
                    avs_directory_address,
                    rewards_coordinator_address,
                }),
                _ => {
                    return Err(Error::MissingEigenlayerContractAddresses);
                },
            }
        },
        Protocol::Symbiotic => {
            match (
                config.operator_registry,
                config.network_registry,
                config.base_delegator,
                config.network_opt_in_service,
                config.vault_opt_in_service,
                config.slasher,
                config.veto_slasher,
            ) {
                (
                    Some(operator_registry_address),
                    Some(network_registry_address),
                    Some(base_delegator_address),
                    Some(network_opt_in_service_address),
                    Some(vault_opt_in_service_address),
                    Some(slasher_address),
                    Some(veto_slasher_address),
                ) => ProtocolSettings::Symbiotic(SymbioticContractAddresses {
                    operator_registry_address,
                    network_registry_address,
                    base_delegator_address,
                    network_opt_in_service_address,
                    vault_opt_in_service_address,
                    slasher_address,
                    veto_slasher_address,
                }),
                _ => {
                    return Err(Error::MissingSymbioticContractAddresses);
                },
            }
        },
    };

    Ok(GadgetConfiguration {
        http_rpc_endpoint: config.http_rpc_url,
        ws_rpc_endpoint: config.ws_rpc_url,
        keystore_uri: config.keystore_uri,
        data_dir: config.data_dir,
        protocol: config.protocol,
        protocol_settings,
        test_mode: config.test_mode,
    })
}

} // verus!
