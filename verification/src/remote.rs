use vstd::prelude::*;

verus! {

/// Where one signing key lives in a cloud key-management service, and which
/// chain it signs for.
#[derive(Debug, Clone)]
pub struct GcpKeyConfig {
    pub project_id: String,
    pub location: String,
    pub keyring: String,
    pub key_name: String,
    pub key_version: u64,
    pub chain_id: Option<u64>,
}

/// The configuration of a remote signer backed by a cloud key-management
/// service: the keys it may sign with.
#[derive(Debug, Clone)]
pub struct GcpRemoteSignerConfig {
    pub keys: Vec<GcpKeyConfig>,
}

impl GcpRemoteSignerConfig {
    /// A configuration without keys; add them with [`Self::add_key`].
    pub fn new() -> (r: Self)
        ensures
            r.keys@.len() == 0,
    {
        GcpRemoteSignerConfig { keys: Vec::new() }
    }

    /// Appends one key.
    pub fn add_key(&mut self, key: GcpKeyConfig)
        ensures
            final(self).keys@ == old(self).keys@.push(key),
    {
        self.keys.push(key);
    }
}

} // verus!
