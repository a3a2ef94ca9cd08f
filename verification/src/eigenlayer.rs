use vstd::prelude::*;
use crate::config::{Address, GadgetConfiguration, ProtocolSettings};
use crate::error::RunnerError;
use crate::runner::BlueprintConfig;

verus! {

/// Errors of the EVM-restaking chain interface.
#[derive(Debug, Clone)]
pub enum EigenlayerError {
    /// The registry of the actively-validated service failed.
    AvsRegistry(String),
    /// A contract read or call failed.
    Contract(String),
    /// The restaking core contracts failed.
    ElContracts(String),
    /// The keystore could not produce a key.
    Keystore(String),
    /// Anything else.
    Other(String),
}

impl EigenlayerError {
    /// The runner-level error this wraps into.
    pub open spec fn into_runner_spec(self) -> RunnerError {
        match self {
            EigenlayerError::AvsRegistry(s) => RunnerError::Eigenlayer(s),
            EigenlayerError::Contract(s) => RunnerError::Eigenlayer(s),
            EigenlayerError::ElContracts(s) => RunnerError::Eigenlayer(s),
            EigenlayerError::Keystore(s) => RunnerError::Eigenlayer(s),
            EigenlayerError::Other(s) => RunnerError::Eigenlayer(s),
        }
    }

    /// Wraps the error for the runner.
    pub fn into_runner(self) -> (r: RunnerError)
        ensures
            r == self.into_runner_spec(),
    {
        match self {
            EigenlayerError::AvsRegistry(s) => RunnerError::Eigenlayer(s),
            EigenlayerError::Contract(s) => RunnerError::Eigenlayer(s),
            EigenlayerError::ElContracts(s) => RunnerError::Eigenlayer(s),
            EigenlayerError::Keystore(s) => RunnerError::Eigenlayer(s),
            EigenlayerError::Other(s) => RunnerError::Eigenlayer(s),
        }
    }
}

/// How long the signed registration digest stays valid, in seconds: one day.
pub const SIG_VALIDITY_SECS: u64 = 86400;

/// How many blocks a staker has to opt out.
pub const STAKER_OPT_OUT_WINDOW_BLOCKS: u32 = 50400;

/// The byte the fixed registration digest repeats.
pub const REGISTRATION_DIGEST_BYTE: u8 = 0x02;

/// The operator details the first registration transaction carries.
#[derive(Debug, Clone)]
pub struct Operator {
    pub address: Address,
    pub earnings_receiver_address: Address,
    pub delegation_approver_address: Address,
    pub metadata_url: Option<String>,
    pub staker_opt_out_window_blocks: u32,
}

/// What the second registration transaction carries beside the operator's
/// BLS key: the signed digest, its expiry, and the quorums joined.
#[derive(Debug, Clone)]
pub struct BlsRegistrationParams {
    /// The 32-byte digest the BLS key signs.
    pub digest_hash: Vec<u8>,
    /// Seconds since the epoch after which the signature expires.
    pub sig_expiry_secs: u128,
    /// The quorum numbers the operator joins.
    pub quorum_numbers: Vec<u8>,
}

/// The narrow EVM-restaking interface the adapter decides over: the
/// keystore's address, the registry read, the clock, and the two
/// registration transactions. The embedding program implements it with its
/// chain clients, built from the addresses in the protocol settings.
pub trait EigenlayerApi {
    /// The operator's EVM address, derived from the keystore's ECDSA key.
    fn operator_address(&self) -> Result<Address, EigenlayerError>;

    /// Whether the registry already records this operator.
    fn is_operator_registered(&self, operator: &Address) -> Result<bool, EigenlayerError>;

    /// Seconds since the epoch, or `None` when the clock reads a moment
    /// before the epoch.
    fn now_unix_secs(&self) -> Option<u64>;

    /// Submits the operator-registration transaction.
    fn register_as_operator(&self, operator: &Operator) -> Result<(), EigenlayerError>;

    /// Submits the transaction carrying the BLS public key and the signed
    /// digest with its expiry.
    fn register_with_avs_registry_coordinator(
        &self,
        params: &BlsRegistrationParams,
    ) -> Result<(), EigenlayerError>;
}

/// When a registration signature made now expires: the current time plus
/// the fixed validity window, or the epoch itself for a clock that reads
/// before the epoch.
pub fn registration_expiry(now: Option<u64>) -> (r: u128)
    ensures
        now matches Some(secs) ==> r == secs + SIG_VALIDITY_SECS,
        now is None ==> r == 0,
{
    match now {
        Some(secs) => secs as u128 + SIG_VALIDITY_SECS as u128,
        None => 0,
    }
}

/// The operator details the first transaction registers: the given
/// addresses, the fixed opt-out window and the blueprint's metadata link.
pub fn operator_details(
    operator_address: Address,
    earnings_receiver_address: Address,
    delegation_approver_address: Address,
) -> (r: Operator)
    ensures
        r.address == operator_address,
        r.earnings_receiver_address == earnings_receiver_address,
        r.delegation_approver_address == delegation_approver_address,
        r.metadata_url matches Some(u) && u@ == "https://github.com/tangle-network/gadget"@,
        r.staker_opt_out_window_blocks == STAKER_OPT_OUT_WINDOW_BLOCKS,
{
    Operator {
        address: operator_address,
        earnings_receiver_address,
        delegation_approver_address,
        metadata_url: Some("https://github.com/tangle-network/gadget".to_string()),
        staker_opt_out_window_blocks: STAKER_OPT_OUT_WINDOW_BLOCKS,
    }
}

/// The parameters of the second transaction: the fixed 32-byte digest, the
/// expiry for a signature made now, and quorum zero.
pub fn bls_registration_params(now: Option<u64>) -> (r: BlsRegistrationParams)
    ensures
        r.digest_hash@.len() == 32,
        forall|i: int| 0 <= i < 32 ==> r.digest_hash@[i] == REGISTRATION_DIGEST_BYTE,
        now matches Some(secs) ==> r.sig_expiry_secs == secs + SIG_VALIDITY_SECS,
        now is None ==> r.sig_expiry_secs == 0,
        r.quorum_numbers@ == seq![0u8],
{
    let mut digest_hash: Vec<u8> = Vec::new();
    let mut i: usize = 0;
    while i < 32
        invariant
            i <= 32,
            digest_hash@.len() == i as nat,
            forall|k: int| 0 <= k < i ==> digest_hash@[k] == REGISTRATION_DIGEST_BYTE,
        decreases 32 - i,
    {
        digest_hash.push(REGISTRATION_DIGEST_BYTE);
        i = i + 1;
    }
    let mut quorum_numbers: Vec<u8> = Vec::new();
    quorum_numbers.push(0);
    assert(quorum_numbers@ =~= seq![0u8]);
    BlsRegistrationParams {
        digest_hash,
        sig_expiry_secs: registration_expiry(now),
        quorum_numbers,
    }
}

/// What one query observed from the chain. `None` when the query never got
/// that far.
pub struct EigenlayerQueryTrace {
    pub operator: Option<Result<Address, EigenlayerError>>,
    pub registry: Option<Result<bool, EigenlayerError>>,
}

/// The contract of the EVM-restaking query: the settings are gated first;
/// then the on-chain registry decides — registration is owed exactly when
/// the operator's address is not recorded yet.
pub open spec fn eigenlayer_query_matches(
    tr: EigenlayerQueryTrace,
    env: GadgetConfiguration,
    r: Result<bool, RunnerError>,
) -> bool {
    &&& !(env.protocol_settings is Eigenlayer) ==> tr.operator is None && tr.registry is None && (
    r matches Err(RunnerError::InvalidProtocol(m)) && m@ == "Expected Eigenlayer protocol"@)
    &&& env.protocol_settings is Eigenlayer ==> (tr.operator matches Some(a) && match a {
        Err(e) => tr.registry is None && r == Err::<bool, RunnerError>(e.into_runner_spec()),
        Ok(_) => tr.registry matches Some(flag) && match flag {
            Err(e) => r == Err::<bool, RunnerError>(e.into_runner_spec()),
            Ok(is_registered) => r == Ok::<bool, RunnerError>(!is_registered),
        },
    })
}

/// Whether the operator still has to register with the service's registry.
pub fn requires_registration_bls_impl<A: EigenlayerApi>(
    env: &GadgetConfiguration,
    api: &A,
) -> (r: (Result<bool, RunnerError>, Ghost<EigenlayerQueryTrace>))
    ensures
        eigenlayer_query_matches(r.1@, *env, r.0),
{
    match env.protocol_settings {
        ProtocolSettings::Eigenlayer(_) => {},
        _ => {
            return (
                Err(RunnerError::InvalidProtocol("Expected Eigenlayer protocol".to_string())),
                Ghost(EigenlayerQueryTrace { operator: None, registry: None }),
            );
        },
    }
    let operator = match api.operator_address() {
        Err(e) => {
            let ghost g_err = e;
            return (
                Err(e.into_runner()),
                Ghost(EigenlayerQueryTrace { operator: Some(Err(g_err)), registry: None }),
            );
        },
        Ok(address) => address,
    };
    let ghost g_operator = operator;
    match api.is_operator_registered(&operator) {
        Err(e) => {
            let ghost g_err = e;
            (
                Err(e.into_runner()),
                Ghost(
                    EigenlayerQueryTrace {
                        operator: Some(Ok(g_operator)),
                        registry: Some(Err(g_err)),
                    },
                ),
            )
        },
        Ok(is_registered) => (
            Ok(!is_registered),
            Ghost(
                EigenlayerQueryTrace {
                    operator: Some(Ok(g_operator)),
                    registry: Some(Ok(is_registered)),
                },
            ),
        ),
    }
}

/// What one registration attempt observed, in call order. A field is `None`
/// when the attempt never got that far — in particular, the second
/// transaction is attempted only when the first succeeded.
pub struct EigenlayerRegisterTrace {
    pub operator: Option<Result<Address, EigenlayerError>>,
    /// The first transaction: operator registration, with what it carried.
    pub operator_tx: Option<(Operator, Result<(), EigenlayerError>)>,
    /// The clock read for the signature expiry.
    pub clock: Option<Option<u64>>,
    /// The second transaction: the BLS key with the signed digest.
    pub bls_tx: Option<(BlsRegistrationParams, Result<(), EigenlayerError>)>,
}

/// The contract of the EVM-restaking registration: the settings are gated
/// first; the first transaction registers the operator details built from
/// the keystore's address and the configured receiver and approver; only
/// when it succeeds is the second transaction sent, carrying the fixed
/// digest with an expiry of the clock's reading plus the validity window.
pub open spec fn eigenlayer_register_matches(
    tr: EigenlayerRegisterTrace,
    env: GadgetConfiguration,
    earnings_receiver_address: Address,
    delegation_approver_address: Address,
    r: Result<(), RunnerError>,
) -> bool {
    &&& !(env.protocol_settings is Eigenlayer) ==> tr.operator is None && tr.operator_tx is None
        && tr.clock is None && tr.bls_tx is None && (r matches Err(RunnerError::InvalidProtocol(m))
        && m@ == "Expected Eigenlayer protocol"@)
    &&& env.protocol_settings is Eigenlayer ==> (tr.operator matches Some(a) && match a {
        Err(e) => tr.operator_tx is None && tr.bls_tx is None && r == Err::<(), RunnerError>(
            e.into_runner_spec(),
        ),
        Ok(operator_address) => tr.operator_tx matches Some((details, first)) && {
            &&& details.address == operator_address
            &&& details.earnings_receiver_address == earnings_receiver_address
            &&& details.delegation_approver_address == delegation_approver_address
            &&& details.staker_opt_out_window_blocks == STAKER_OPT_OUT_WINDOW_BLOCKS
            &&& (details.metadata_url matches Some(u) && u@
                == "https://github.com/tangle-network/gadget"@)
            &&& match first {
                Err(e) => tr.bls_tx is None && r == Err::<(), RunnerError>(e.into_runner_spec()),
                Ok(_) => tr.clock matches Some(now) && tr.bls_tx matches Some((params, second))
                    && {
                    &&& params.digest_hash@.len() == 32
                    &&& forall|i: int|
                        0 <= i < 32 ==> params.digest_hash@[i] == REGISTRATION_DIGEST_BYTE
                    &&& (now matches Some(secs) ==> params.sig_expiry_secs == secs
                        + SIG_VALIDITY_SECS)
                    &&& (now is None ==> params.sig_expiry_secs == 0)
                    &&& params.quorum_numbers@ == seq![0u8]
                    &&& match second {
                        Err(e) => r == Err::<(), RunnerError>(e.into_runner_spec()),
                        Ok(_) => r == Ok::<(), RunnerError>(()),
                    }
                },
            }
        },
    })
}

/// Registers the operator in two transactions: first the operator details,
/// then — only on success — the BLS public key with the signed digest and
/// its expiry.
pub fn register_bls_impl<A: EigenlayerApi>(
    env: &GadgetConfiguration,
    earnings_receiver_address: Address,
    delegation_approver_address: Address,
    api: &A,
) -> (r: (Result<(), RunnerError>, Ghost<EigenlayerRegisterTrace>))
    ensures
        eigenlayer_register_matches(
            r.1@,
            *env,
            earnings_receiver_address,
            delegation_approver_address,
            r.0,
        ),
{
    match env.protocol_settings {
        ProtocolSettings::Eigenlayer(_) => {},
        _ => {
            return (
                Err(RunnerError::InvalidProtocol("Expected Eigenlayer protocol".to_string())),
                Ghost(
                    EigenlayerRegisterTrace {
                        operator: None,
                        operator_tx: None,
                        clock: None,
                        bls_tx: None,
                    },
                ),
            );
        },
    }
    let operator_address = match api.operator_address() {
        Err(e) => {
            let ghost g_err = e;
            return (
                Err(e.into_runner()),
                Ghost(
                    EigenlayerRegisterTrace {
                        operator: Some(Err(g_err)),
                        operator_tx: None,
                        clock: None,
                        bls_tx: None,
                    },
                ),
            );
        },
        Ok(address) => address,
    };
    let ghost g_operator = operator_address;
    let details = operator_details(
        operator_address,
        earnings_receiver_address,
        delegation_approver_address,
    );
    let ghost g_details = details;
    match api.register_as_operator(&details) {
        Err(e) => {
            let ghost g_err = e;
            return (
                Err(e.into_runner()),
                Ghost(
                    EigenlayerRegisterTrace {
                        operator: Some(Ok(g_operator)),
                        operator_tx: Some((g_details, Err(g_err))),
                        clock: None,
                        bls_tx: None,
                    },
                ),
            );
        },
        Ok(_) => {},
    }
    let now = api.now_unix_secs();
    let ghost g_now = now;
    let params = bls_registration_params(now);
    let ghost g_params = params;
    match api.register_with_avs_registry_coordinator(&params) {
        Err(e) => {
            let ghost g_err = e;
            (
                Err(e.into_runner()),
                Ghost(
                    EigenlayerRegisterTrace {
                        operator: Some(Ok(g_operator)),
                        operator_tx: Some((g_details, Ok(()))),
                        clock: Some(g_now),
                        bls_tx: Some((g_params, Err(g_err))),
                    },
                ),
            )
        },
        Ok(_) => (
            Ok(()),
            Ghost(
                EigenlayerRegisterTrace {
                    operator: Some(Ok(g_operator)),
                    operator_tx: Some((g_details, Ok(()))),
                    clock: Some(g_now),
                    bls_tx: Some((g_params, Ok(()))),
                },
            ),
        ),
    }
}

/// The EVM-restaking registration adapter, with the two addresses its
/// operator details carry and the chain interface it decides over.
#[derive(Clone)]
pub struct EigenlayerBLSConfig<A> {
    earnings_receiver_address: Address,
    delegation_approver_address: Address,
    pub api: A,
}

impl<A> EigenlayerBLSConfig<A> {
    pub fn new(
        earnings_receiver_address: Address,
        delegation_approver_address: Address,
        api: A,
    ) -> Self {
        EigenlayerBLSConfig { earnings_receiver_address, delegation_approver_address, api }
    }
}

impl<A: EigenlayerApi> BlueprintConfig for EigenlayerBLSConfig<A> {
    open spec fn protocol(&self) -> Option<crate::config::Protocol> {
        Some(crate::config::Protocol::Eigenlayer)
    }

    fn requires_registration(&self, env: &GadgetConfiguration) -> Result<bool, RunnerError> {
        requires_registration_bls_impl(env, &self.api).0
    }

    fn register(&self, env: &GadgetConfiguration) -> Result<(), RunnerError> {
        register_bls_impl(
            env,
            self.earnings_receiver_address,
            self.delegation_approver_address,
            &self.api,
        ).0
    }
}

} // verus!
