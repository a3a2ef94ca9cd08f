use vstd::prelude::*;
use crate::config::{GadgetConfiguration, ProtocolSettings};
use crate::error::RunnerError;
use crate::runner::BlueprintConfig;

verus! {

/// Errors of the substrate-style chain interface.
#[derive(Debug, Clone)]
pub enum TangleError {
    /// A chain read, a connection or an extrinsic submission failed.
    Network(String),
    /// The keystore could not produce a key.
    Keystore(String),
    /// Anything else.
    Other(String),
}

impl TangleError {
    /// The runner-level error this wraps into.
    pub open spec fn into_runner_spec(self) -> RunnerError {
        match self {
            TangleError::Network(s) => RunnerError::Tangle(s),
            TangleError::Keystore(s) => RunnerError::Tangle(s),
            TangleError::Other(s) => RunnerError::Tangle(s),
        }
    }

    /// Wraps the error for the runner.
    pub fn into_runner(self) -> (r: RunnerError)
        ensures
            r == self.into_runner_spec(),
    {
        match self {
            TangleError::Network(s) => RunnerError::Tangle(s),
            TangleError::Keystore(s) => RunnerError::Tangle(s),
            TangleError::Other(s) => RunnerError::Tangle(s),
        }
    }
}

/// The per-resource price targets an operator registers with.
#[derive(Debug, Clone, Copy)]
pub struct PriceTargets {
    pub cpu: u64,
    pub mem: u64,
    pub storage_hdd: u64,
    pub storage_ssd: u64,
    pub storage_nvme: u64,
}

impl Default for PriceTargets {
    /// Zeroed-out price targets.
    fn default() -> (r: Self)
        ensures
            r.cpu == 0 && r.mem == 0 && r.storage_hdd == 0 && r.storage_ssd == 0
                && r.storage_nvme == 0,
    {
        PriceTargets { cpu: 0, mem: 0, storage_hdd: 0, storage_ssd: 0, storage_nvme: 0 }
    }
}

/// What one registration extrinsic carries for the operator: the public key
/// the operator signs with and the price targets.
#[derive(Debug, Clone)]
pub struct OperatorPreferences {
    /// The operator's ECDSA public key, as the chain encodes it.
    pub key: Vec<u8>,
    pub price_targets: PriceTargets,
}

/// Extra registration arguments, already encoded for the chain.
pub type RegistrationArgs = Vec<u8>;

/// The narrow substrate-chain interface the adapter decides over: profile
/// and delegation reads, the keystore's signing key, and the registration
/// extrinsic. The embedding program implements it with its chain client.
pub trait TangleApi {
    /// The blueprint ids the operator's on-chain profile lists; `None` when
    /// the operator has no profile yet.
    fn operator_profile_blueprints(&self) -> Result<Option<Vec<u64>>, TangleError>;

    /// Whether the operator's stake delegation is currently active.
    fn operator_delegation_active(&self) -> Result<bool, TangleError>;

    /// The operator's ECDSA public key, drawn from the keystore.
    fn operator_ecdsa_key(&self) -> Result<Vec<u8>, TangleError>;

    /// Submits the signed registration extrinsic and awaits finalization.
    fn submit_registration(
        &self,
        blueprint_id: u64,
        preferences: &OperatorPreferences,
        registration_args: &RegistrationArgs,
    ) -> Result<(), TangleError>;
}

/// Whether a profile's blueprint list carries the given id.
pub fn blueprint_listed(blueprints: &Vec<u64>, blueprint_id: u64) -> (r: bool)
    ensures
        r == blueprints@.contains(blueprint_id),
{
    let mut i: usize = 0;
    while i < blueprints.len()
        invariant
            i <= blueprints@.len(),
            forall|k: int| 0 <= k < i ==> blueprints@[k] != blueprint_id,
        decreases blueprints@.len() - i,
    {
        if blueprints[i] == blueprint_id {
            assert(blueprints@[i as int] == blueprint_id);
            return true;
        }
        i = i + 1;
    }
    false
}

/// Whether the operator still has to register for the configured blueprint.
///
/// The environment must carry substrate-style settings; any other settings
/// are a typed mismatch. Otherwise the operator's profile decides: no
/// profile, or a profile without this blueprint id, means registration is
/// still owed. The ghost result records what the chain returned; the answer
/// is an exact function of it.
pub fn requires_registration_impl<A: TangleApi>(api: &A, env: &GadgetConfiguration) -> (r: (
    Result<bool, RunnerError>,
    Ghost<Option<Result<Option<Vec<u64>>, TangleError>>>,
))
    ensures
        !(env.protocol_settings is Tangle) ==> r.1@ is None && (r.0 matches Err(
            RunnerError::InvalidProtocol(m),
        ) && m@ == "Expected Tangle protocol"@),
        env.protocol_settings matches ProtocolSettings::Tangle(s) ==> (r.1@ matches Some(profile)
            && match profile {
            Err(e) => r.0 == Err::<bool, RunnerError>(e.into_runner_spec()),
            Ok(None) => r.0 == Ok::<bool, RunnerError>(true),
            Ok(Some(bps)) => r.0 == Ok::<bool, RunnerError>(!bps@.contains(s.blueprint_id)),
        }),
{
    let blueprint_id = match env.protocol_settings {
        ProtocolSettings::Tangle(settings) => settings.blueprint_id,
        _ => {
            return (
                Err(RunnerError::InvalidProtocol("Expected Tangle protocol".to_string())),
                Ghost(None),
            );
        },
    };
    match api.operator_profile_blueprints() {
        Err(e) => {
            let ghost g_err = e;
            (Err(e.into_runner()), Ghost(Some(Err(g_err))))
        },
        Ok(None) => (Ok(true), Ghost(Some(Ok(None)))),
        Ok(Some(blueprints)) => {
            let ghost g_blueprints = blueprints;
            let listed = blueprint_listed(&blueprints, blueprint_id);
            (Ok(!listed), Ghost(Some(Ok(Some(g_blueprints)))))
        },
    }
}

/// What one registration attempt observed from the chain, in call order.
/// A field is `None` when the attempt never got that far.
pub struct TangleRegisterTrace {
    /// Whether the operator's delegation was active, as the chain answered.
    pub delegation: Option<Result<bool, TangleError>>,
    /// The key the keystore produced.
    pub key: Option<Result<Vec<u8>, TangleError>>,
    /// The outcome of the submitted extrinsic, with everything it carried:
    /// the blueprint id, the operator preferences and the encoded arguments.
    pub submitted: Option<(u64, OperatorPreferences, RegistrationArgs, Result<(), TangleError>)>,
}

/// The contract of [`register_impl`], over what the attempt observed:
/// settings are gated first, then the operator must be an active delegator
/// (else [`RunnerError::NotActiveOperator`]), then one extrinsic is
/// submitted carrying exactly the configured blueprint id, the keystore's
/// key with the given price targets, and the given registration arguments;
/// its outcome is the attempt's outcome.
pub open spec fn tangle_register_matches(
    tr: TangleRegisterTrace,
    env: GadgetConfiguration,
    price_targets: PriceTargets,
    registration_args: Seq<u8>,
    r: Result<(), RunnerError>,
) -> bool {
    &&& !(env.protocol_settings is Tangle) ==> tr.delegation is None && tr.key is None
        && tr.submitted is None && (r matches Err(RunnerError::InvalidProtocol(m)) && m@
        == "Expected Tangle protocol"@)
    &&& env.protocol_settings matches ProtocolSettings::Tangle(settings) ==> (tr.delegation
        matches Some(d) && match d {
        Err(e) => tr.key is None && tr.submitted is None && r == Err::<(), RunnerError>(
            e.into_runner_spec(),
        ),
        Ok(false) => tr.key is None && tr.submitted is None && r == Err::<(), RunnerError>(
            RunnerError::NotActiveOperator,
        ),
        Ok(true) => tr.key matches Some(key) && match key {
            Err(e) => tr.submitted is None && r == Err::<(), RunnerError>(e.into_runner_spec()),
            Ok(k) => tr.submitted matches Some((id, prefs, args, outcome)) && id
                == settings.blueprint_id && prefs.key@ == k@ && prefs.price_targets
                == price_targets && args@ == registration_args && match outcome {
                Err(e) => r == Err::<(), RunnerError>(e.into_runner_spec()),
                Ok(_) => r == Ok::<(), RunnerError>(()),
            },
        },
    })
}

/// Registers the operator for the configured blueprint: checks the
/// protocol settings, requires an active stake delegation, and submits one
/// signed extrinsic carrying the operator's key, the price targets and the
/// registration arguments.
pub fn register_impl<A: TangleApi>(
    price_targets: PriceTargets,
    registration_args: RegistrationArgs,
    env: &GadgetConfiguration,
    api: &A,
) -> (r: (Result<(), RunnerError>, Ghost<TangleRegisterTrace>))
    ensures
        tangle_register_matches(r.1@, *env, price_targets, registration_args@, r.0),
{
    let blueprint_id = match env.protocol_settings {
        ProtocolSettings::Tangle(settings) => settings.blueprint_id,
        _ => {
            return (
                Err(RunnerError::InvalidProtocol("Expected Tangle protocol".to_string())),
                Ghost(TangleRegisterTrace { delegation: None, key: None, submitted: None }),
            );
        },
    };
    let active = match api.operator_delegation_active() {
        Err(e) => {
            let ghost g_err = e;
            return (
                Err(e.into_runner()),
                Ghost(
                    TangleRegisterTrace {
                        delegation: Some(Err(g_err)),
                        key: None,
                        submitted: None,
                    },
                ),
            );
        },
        Ok(active) => active,
    };
    if !active {
        return (
            Err(RunnerError::NotActiveOperator),
            Ghost(
                TangleRegisterTrace { delegation: Some(Ok(false)), key: None, submitted: None },
            ),
        );
    }
    let key = match api.operator_ecdsa_key() {
        Err(e) => {
            let ghost g_err = e;
            return (
                Err(e.into_runner()),
                Ghost(
                    TangleRegisterTrace {
                        delegation: Some(Ok(true)),
                        key: Some(Err(g_err)),
                        submitted: None,
                    },
                ),
            );
        },
        Ok(key) => key,
    };
    let ghost g_key = key;
    let preferences = OperatorPreferences { key, price_targets };
    let ghost g_preferences = preferences;
    let ghost g_args = registration_args;
    match api.submit_registration(blueprint_id, &preferences, &registration_args) {
        Err(e) => {
            let ghost g_err = e;
            (
                Err(e.into_runner()),
                Ghost(
                    TangleRegisterTrace {
                        delegation: Some(Ok(true)),
                        key: Some(Ok(g_key)),
                        submitted: Some((blueprint_id, g_preferences, g_args, Err(g_err))),
                    },
                ),
            )
        },
        Ok(_) => (
            Ok(()),
            Ghost(
                TangleRegisterTrace {
                    delegation: Some(Ok(true)),
                    key: Some(Ok(g_key)),
                    submitted: Some((blueprint_id, g_preferences, g_args, Ok(()))),
                },
            ),
        ),
    }
}

/// The substrate-style registration adapter: carries the operator's price
/// targets and the chain interface it decides over.
#[derive(Clone)]
pub struct TangleConfig<A> {
    pub price_targets: PriceTargets,
    pub api: A,
}

impl<A> TangleConfig<A> {
    pub fn new(price_targets: PriceTargets, api: A) -> (r: Self)
        ensures
            r.price_targets == price_targets,
    {
        TangleConfig { price_targets, api }
    }
}

impl<A: TangleApi> BlueprintConfig for TangleConfig<A> {
    open spec fn protocol(&self) -> Option<crate::config::Protocol> {
        Some(crate::config::Protocol::Tangle)
    }

    fn requires_registration(&self, env: &GadgetConfiguration) -> Result<bool, RunnerError> {
        requires_registration_impl(&self.api, env).0
    }

    fn register(&self, env: &GadgetConfiguration) -> Result<(), RunnerError> {
        register_impl(self.price_targets.clone(), Vec::new(), env, &self.api).0
    }
}

} // verus!
