use vstd::prelude::*;
use crate::config::{Address, GadgetConfiguration, ProtocolSettings};
use crate::error::RunnerError;
use crate::runner::BlueprintConfig;

verus! {

/// Errors of the alternate-restaking chain interface.
#[derive(Debug, Clone)]
pub enum SymbioticError {
    Protocol(String),
    Config(String),
    Chain(String),
    Bridge(String),
    Registration(String),
    Other(String),
}

impl SymbioticError {
    /// The runner-level error this wraps into.
    pub open spec fn into_runner_spec(self) -> RunnerError {
        match self {
            SymbioticError::Protocol(s) => RunnerError::Symbiotic(s),
            SymbioticError::Config(s) => RunnerError::Symbiotic(s),
            SymbioticError::Chain(s) => RunnerError::Symbiotic(s),
            SymbioticError::Bridge(s) => RunnerError::Symbiotic(s),
            SymbioticError::Registration(s) => RunnerError::Symbiotic(s),
            SymbioticError::Other(s) => RunnerError::Symbiotic(s),
        }
    }

    /// Wraps the error for the runner.
    pub fn into_runner(self) -> (r: RunnerError)
        ensures
            r == self.into_runner_spec(),
    {
        match self {
            SymbioticError::Protocol(s) => RunnerError::Symbiotic(s),
            SymbioticError::Config(s) => RunnerError::Symbiotic(s),
            SymbioticError::Chain(s) => RunnerError::Symbiotic(s),
            SymbioticError::Bridge(s) => RunnerError::Symbiotic(s),
            SymbioticError::Registration(s) => RunnerError::Symbiotic(s),
            SymbioticError::Other(s) => RunnerError::Symbiotic(s),
        }
    }
}

/// The narrow registry-contract interface the adapter decides over. The
/// embedding program implements it with its EVM client and keystore.
pub trait SymbioticApi {
    /// The operator's EVM address, derived from the keystore's signing key.
    fn operator_address(&self) -> Result<Address, SymbioticError>;

    /// Reads the registry's boolean entity flag for the address.
    fn is_entity(&self, operator: &Address) -> Result<bool, SymbioticError>;

    /// Submits the idempotent register-operator call and reports whether the
    /// transaction receipt carried success.
    fn register_operator(&self) -> Result<bool, SymbioticError>;
}

/// What one adapter call observed from the chain: the resolved operator
/// address and the registry answer. `None` when the call never got that far.
pub struct SymbioticTrace {
    pub operator: Option<Result<Address, SymbioticError>>,
    pub registry: Option<Result<bool, SymbioticError>>,
}

/// The contract of the alternate-restaking query: the settings are gated
/// first; then the registry's entity flag, read for the keystore's address,
/// decides — registration is owed exactly when the flag is clear.
pub open spec fn symbiotic_query_matches(
    tr: SymbioticTrace,
    env: GadgetConfiguration,
    r: Result<bool, RunnerError>,
) -> bool {
    &&& !(env.protocol_settings is Symbiotic) ==> tr.operator is None && tr.registry is None && (
    r matches Err(RunnerError::InvalidProtocol(m)) && m@ == "Expected Symbiotic protocol"@)
    &&& env.protocol_settings is Symbiotic ==> (tr.operator matches Some(a) && match a {
        Err(e) => tr.registry is None && r == Err::<bool, RunnerError>(e.into_runner_spec()),
        Ok(_) => tr.registry matches Some(flag) && match flag {
            Err(e) => r == Err::<bool, RunnerError>(e.into_runner_spec()),
            Ok(is_entity) => r == Ok::<bool, RunnerError>(!is_entity),
        },
    })
}

/// Whether the operator still has to register with the operator registry.
pub fn symbiotic_requires_registration_impl<A: SymbioticApi>(
    api: &A,
    env: &GadgetConfiguration,
) -> (r: (Result<bool, RunnerError>, Ghost<SymbioticTrace>))
    ensures
        symbiotic_query_matches(r.1@, *env, r.0),
{
    match env.protocol_settings {
        ProtocolSettings::Symbiotic(_) => {},
        _ => {
            return (
                Err(RunnerError::InvalidProtocol("Expected Symbiotic protocol".to_string())),
                Ghost(SymbioticTrace { operator: None, registry: None }),
            );
        },
    }
    let operator = match api.operator_address() {
        Err(e) => {
            let ghost g_err = e;
            return (
                Err(e.into_runner()),
                Ghost(SymbioticTrace { operator: Some(Err(g_err)), registry: None }),
            );
        },
        Ok(address) => address,
    };
    let ghost g_operator = operator;
    match api.is_entity(&operator) {
        Err(e) => {
            let ghost g_err = e;
            (
                Err(e.into_runner()),
                Ghost(
                    SymbioticTrace { operator: Some(Ok(g_operator)), registry: Some(Err(g_err)) },
                ),
            )
        },
        Ok(is_entity) => (
            Ok(!is_entity),
            Ghost(
                SymbioticTrace {
                    operator: Some(Ok(g_operator)),
                    registry: Some(Ok(is_entity)),
                },
            ),
        ),
    }
}

/// The contract of the alternate-restaking registration: the settings are
/// gated first; then one register-operator transaction is sent and its
/// receipt is checked for success. A mined transaction whose receipt
/// carries no success is a registration failure like any other.
pub open spec fn symbiotic_register_matches(
    sent: Option<Result<bool, SymbioticError>>,
    env: GadgetConfiguration,
    r: Result<(), RunnerError>,
) -> bool {
    &&& !(env.protocol_settings is Symbiotic) ==> sent is None && (r matches Err(
        RunnerError::InvalidProtocol(m),
    ) && m@ == "Expected Symbiotic protocol"@)
    &&& env.protocol_settings is Symbiotic ==> (sent matches Some(outcome) && match outcome {
        Err(e) => r == Err::<(), RunnerError>(e.into_runner_spec()),
        Ok(true) => r == Ok::<(), RunnerError>(()),
        Ok(false) => r matches Err(RunnerError::Symbiotic(m)) && m@
            == "operator registration transaction failed"@,
    })
}

/// Registers the operator: one register-operator contract call, checked
/// for receipt success.
pub fn symbiotic_register_impl<A: SymbioticApi>(api: &A, env: &GadgetConfiguration) -> (r: (
    Result<(), RunnerError>,
    Ghost<Option<Result<bool, SymbioticError>>>,
))
    ensures
        symbiotic_register_matches(r.1@, *env, r.0),
{
    match env.protocol_settings {
        ProtocolSettings::Symbiotic(_) => {},
        _ => {
            return (
                Err(RunnerError::InvalidProtocol("Expected Symbiotic protocol".to_string())),
                Ghost(None),
            );
        },
    }
    match api.register_operator() {
        Err(e) => {
            let ghost g_err = e;
            (Err(e.into_runner()), Ghost(Some(Err(g_err))))
        },
        Ok(true) => (Ok(()), Ghost(Some(Ok(true)))),
        Ok(false) => (
            Err(
                RunnerError::Symbiotic("operator registration transaction failed".to_string()),
            ),
            Ghost(Some(Ok(false))),
        ),
    }
}

/// The alternate-restaking registration adapter.
#[derive(Clone, Copy)]
pub struct SymbioticConfig<A> {
    pub api: A,
}

impl<A> SymbioticConfig<A> {
    pub fn new(api: A) -> Self {
        SymbioticConfig { api }
    }
}

impl<A: SymbioticApi> BlueprintConfig for SymbioticConfig<A> {
    open spec fn protocol(&self) -> Option<crate::config::Protocol> {
        Some(crate::config::Protocol::Symbiotic)
    }

    fn requires_registration(&self, env: &GadgetConfiguration) -> Result<bool, RunnerError> {
        symbiotic_requires_registration_impl(&self.api, env).0
    }

    fn register(&self, env: &GadgetConfiguration) -> Result<(), RunnerError> {
        symbiotic_register_impl(&self.api, env).0
    }
}

} // verus!
