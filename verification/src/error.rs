use vstd::prelude::*;

verus! {

/// Errors surfaced by [`crate::runner::BlueprintRunner::run`] and by the
/// protocol registration adapters.
///
/// Only the pre-start gate (registration and service startup) can surface
/// one of these to the caller; failures of already-running tasks are
/// reported through their completion signals and logged.
#[derive(Debug, Clone)]
pub enum RunnerError {
    /// A completion signal's sender vanished before the signal fired.
    Recv,
    /// The environment's protocol settings do not match the protocol the
    /// configured adapter targets.
    InvalidProtocol(String),
    /// Substrate-style registration found the operator's stake delegation
    /// not active.
    NotActiveOperator,
    /// A wrapped EVM-restaking chain or signing error.
    Eigenlayer(String),
    /// A wrapped alternate-restaking chain error.
    Symbiotic(String),
    /// A wrapped substrate-style chain error.
    Tangle(String),
}

impl RunnerError {
    /// A short label naming the variant, for logs kept by the embedding
    /// program.
    pub fn kind(&self) -> (r: &'static str)
        ensures
            r@ == self.kind_spec(),
    {
        match self {
            RunnerError::Recv => "recv",
            RunnerError::InvalidProtocol(_) => "invalid protocol",
            RunnerError::NotActiveOperator => "not an active operator",
            RunnerError::Eigenlayer(_) => "eigenlayer",
            RunnerError::Symbiotic(_) => "symbiotic",
            RunnerError::Tangle(_) => "tangle",
        }
    }

    pub open spec fn kind_spec(&self) -> Seq<char> {
        match self {
            RunnerError::Recv => "recv"@,
            RunnerError::InvalidProtocol(_) => "invalid protocol"@,
            RunnerError::NotActiveOperator => "not an active operator"@,
            RunnerError::Eigenlayer(_) => "eigenlayer"@,
            RunnerError::Symbiotic(_) => "symbiotic"@,
            RunnerError::Tangle(_) => "tangle"@,
        }
    }
}

} // verus!
