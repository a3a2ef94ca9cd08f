use vstd::prelude::*;
use crate::k256_ecdsa::random_seed32;

verus! {

/// Errors of the BLS12-381 key scheme.
#[derive(Debug, Clone)]
pub enum BlsError {
    InvalidSeed(String),
    SignatureFailed(String),
}

/// The secret drawn deterministically from a seed: a function of the seed
/// alone.
pub uninterp spec fn seeded_secret(seed: Seq<u8>) -> Seq<u8>;

/// Relies on w3f-bls's `SecretKey::<TinyBLS381>::from_seed` and its byte
/// serialization: the seed is hashed to the secret scalar.
#[verifier::external_body]
fn secret_from_seed(seed: &[u8]) -> (r: Vec<u8>)
    ensures
        r@ == seeded_secret(seed@),
{
    w3f_bls::SerializableToBytes::to_bytes(
        &w3f_bls::SecretKey::<w3f_bls::TinyBLS381>::from_seed(seed),
    )
}

/// The public key a serialized secret derives, or `None` when the bytes
/// deserialize to no secret: a function of the bytes alone.
pub uninterp spec fn public_of(secret: Seq<u8>) -> Option<Seq<u8>>;

/// Relies on w3f-bls's secret-key deserialization and `into_public`.
#[verifier::external_body]
fn public_from_secret_bytes(secret: &[u8]) -> (r: Option<Vec<u8>>)
    ensures
        match r {
            Some(v) => public_of(secret@) == Some(v@),
            None => public_of(secret@) is None,
        },
{
    match <w3f_bls::SecretKey<w3f_bls::TinyBLS381> as w3f_bls::SerializableToBytes>::from_bytes(
        secret,
    ) {
        Ok(sk) => Some(w3f_bls::SerializableToBytes::to_bytes(&sk.into_public())),
        Err(_) => None,
    }
}

/// Relies on w3f-bls's signing in the fixed signing context. The signer
/// re-splits the key with fresh randomness, so nothing pins the
/// signature's bytes; it signs exactly when the secret deserializes, and a
/// produced signature verifies under the secret's derived public key.
#[verifier::external_body]
fn sign_bytes(secret: &[u8], msg: &[u8]) -> (r: Option<Vec<u8>>)
    ensures
        r is Some <==> public_of(secret@) is Some,
        r matches Some(sig) ==> (public_of(secret@) matches Some(pk) ==> verifies(
            pk,
            msg@,
            sig@,
        )),
{
    let mut sk = <w3f_bls::SecretKey<w3f_bls::TinyBLS381> as w3f_bls::SerializableToBytes>::from_bytes(secret).ok()?;
    let signature = sk.sign(&w3f_bls::Message::new(b"tangle", msg), &mut rand::thread_rng());
    Some(w3f_bls::SerializableToBytes::to_bytes(&signature))
}

/// Whether the signature verifies for the message under the public key, in
/// the fixed signing context: a function of its arguments alone.
pub uninterp spec fn verifies(public: Seq<u8>, msg: Seq<u8>, sig: Seq<u8>) -> bool;

/// Relies on w3f-bls's `Signature::verify`; malformed keys or signatures
/// verify as false.
#[verifier::external_body]
fn verify_bytes(public: &[u8], msg: &[u8], sig: &[u8]) -> (r: bool)
    ensures
        r == verifies(public@, msg@, sig@),
{
    let pk = <w3f_bls::PublicKey<w3f_bls::TinyBLS381> as w3f_bls::SerializableToBytes>::from_bytes(public);
    let sg = <w3f_bls::Signature<w3f_bls::TinyBLS381> as w3f_bls::SerializableToBytes>::from_bytes(sig);
    match (pk, sg) {
        (Ok(pk), Ok(sg)) => sg.verify(&w3f_bls::Message::new(b"tangle", msg), &pk),
        _ => false,
    }
}

/// The BLS key scheme over the BLS12-381 curve.
pub struct W3fBls381;

/// A serialized BLS12-381 public key.
#[derive(Debug, Clone)]
pub struct Public {
    pub bytes: Vec<u8>,
}

impl Public {
    pub fn to_bytes(&self) -> (r: Vec<u8>)
        ensures
            r@ == self.bytes@,
    {
        self.bytes.clone()
    }
}

/// A serialized BLS12-381 secret key with its derived public key.
#[derive(Debug, Clone)]
pub struct Secret {
    pub bytes: Vec<u8>,
    pub public: Vec<u8>,
}

impl Secret {
    /// The held public key is the one the secret derives.
    pub open spec fn wf(&self) -> bool {
        public_of(self.bytes@) == Some(self.public@)
    }

    pub fn to_bytes(&self) -> (r: Vec<u8>)
        ensures
            r@ == self.bytes@,
    {
        self.bytes.clone()
    }
}

/// A serialized BLS12-381 signature.
#[derive(Debug, Clone)]
pub struct W3fBls381Signature {
    pub bytes: Vec<u8>,
}

impl W3fBls381Signature {
    pub fn to_bytes(&self) -> (r: Vec<u8>)
        ensures
            r@ == self.bytes@,
    {
        self.bytes.clone()
    }
}

impl W3fBls381 {
    /// Generates a secret key: deterministically from a seed, else from
    /// fresh random bytes.
    pub fn generate_with_seed(seed: Option<&[u8]>) -> (r: Result<Secret, BlsError>)
        ensures
            r matches Ok(k) ==> k.wf(),
            seed matches Some(s) ==> match r {
                Ok(k) => k.bytes@ == seeded_secret(s@),
                Err(_) => public_of(seeded_secret(s@)) is None,
            },
    {
        let bytes = match seed {
            Some(s) => secret_from_seed(s),
            None => {
                let fresh = random_seed32();
                secret_from_seed(&fresh)
            },
        };
        match public_from_secret_bytes(&bytes) {
            Some(public) => Ok(Secret { bytes, public }),
            None => Err(BlsError::InvalidSeed("seed gave no usable secret".to_string())),
        }
    }

    /// The public key a secret derives.
    pub fn public_from_secret(secret: &Secret) -> (r: Public)
        ensures
            r.bytes@ == secret.public@,
            secret.wf() ==> public_of(secret.bytes@) == Some(r.bytes@),
    {
        Public { bytes: secret.public.clone() }
    }

    /// Signs a message in the scheme's fixed signing context. A well-formed
    /// secret always signs, and the signature verifies under its public key.
    pub fn sign_with_secret(secret: &mut Secret, msg: &[u8]) -> (r: Result<
        W3fBls381Signature,
        BlsError,
    >)
        ensures
            *final(secret) == *old(secret),
            r is Ok <==> public_of(old(secret).bytes@) is Some,
            old(secret).wf() ==> r is Ok,
            old(secret).wf() ==> (r matches Ok(s) ==> verifies(
                old(secret).public@,
                msg@,
                s.bytes@,
            )),
    {
        match sign_bytes(&secret.bytes, msg) {
            Some(bytes) => Ok(W3fBls381Signature { bytes }),
            None => Err(BlsError::SignatureFailed("secret did not deserialize".to_string())),
        }
    }

    /// Signs a 32-byte prehashed digest; the scheme hashes the digest into
    /// its signing context like any other message.
    pub fn sign_with_secret_pre_hashed(secret: &mut Secret, msg: &[u8; 32]) -> (r: Result<
        W3fBls381Signature,
        BlsError,
    >)
        ensures
            *final(secret) == *old(secret),
            r is Ok <==> public_of(old(secret).bytes@) is Some,
            old(secret).wf() ==> r is Ok,
            old(secret).wf() ==> (r matches Ok(s) ==> verifies(
                old(secret).public@,
                msg@,
                s.bytes@,
            )),
    {
        match sign_bytes(&secret.bytes, msg.as_slice()) {
            Some(bytes) => Ok(W3fBls381Signature { bytes }),
            None => Err(BlsError::SignatureFailed("secret did not deserialize".to_string())),
        }
    }

    /// Whether the signature verifies for the message under the public key.
    pub fn verify(public: &Public, msg: &[u8], signature: &W3fBls381Signature) -> (r: bool)
        ensures
            r == verifies(public.bytes@, msg@, signature.bytes@),
    {
        verify_bytes(&public.bytes, msg, &signature.bytes)
    }
}

} // verus!
