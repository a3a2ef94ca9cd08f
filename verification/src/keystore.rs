use vstd::prelude::*;
use crate::bls377;
use crate::bls381;
use crate::bls381::BlsError;

verus! {

/// The BLS side of a substrate-style keystore: key generation and signing
/// with stored keys. Key storage itself is an external collaborator; this
/// crate only declares the capability it draws signatures from.
pub trait TangleBlsBackend {
    /// Generates and stores a BLS12-381 key; returns its public half.
    fn bls381_generate_new(&self, seed: Option<&[u8]>) -> Result<bls381::Public, BlsError>;

    /// Generates and stores a BLS12-377 key; returns its public half.
    fn bls377_generate_new(&self, seed: Option<&[u8]>) -> Result<bls377::Public, BlsError>;

    /// Signs with the stored key belonging to the public key; `None` when
    /// the keystore holds no such key.
    fn bls381_sign(&self, public: &bls381::Public, msg: &[u8]) -> Result<
        Option<bls381::W3fBls381Signature>,
        BlsError,
    >;

    /// Signs with the stored key belonging to the public key; `None` when
    /// the keystore holds no such key.
    fn bls377_sign(&self, public: &bls377::Public, msg: &[u8]) -> Result<
        Option<bls377::W3fBls377Signature>,
        BlsError,
    >;
}

} // verus!
