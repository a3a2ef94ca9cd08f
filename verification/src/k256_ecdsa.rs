use vstd::prelude::*;
use crate::key_types::KeyTypeId;

verus! {

/// Errors of the ECDSA key scheme over the secp256k1 curve.
#[derive(Debug, Clone)]
pub enum K256Error {
    InvalidVerifyingKey(String),
    InvalidSignature(String),
    InvalidSeed(String),
    InvalidHexEncoding,
    SignatureFailed(String),
}

/// The compressed SEC1 form of the public key that `bytes` encodes, when it
/// encodes one. Named after k256's parser and encoder; a function of the
/// bytes alone.
pub uninterp spec fn sec1_canonical(bytes: Seq<u8>) -> Option<Seq<u8>>;

/// Relies on k256's `VerifyingKey::from_sec1_bytes` and `to_sec1_bytes`:
/// parses a SEC1-encoded secp256k1 public key and re-encodes it in
/// compressed form; the error carries the parser's message. The compressed
/// form parses back to the same key and re-encodes to itself, so the
/// result is a fixed point of the re-encoding.
#[verifier::external_body]
fn sec1_reencode(bytes: &[u8]) -> (r: Result<Vec<u8>, String>)
    ensures
        match r {
            Ok(v) => sec1_canonical(bytes@) == Some(v@),
            Err(_) => sec1_canonical(bytes@) is None,
        },
        r matches Ok(v) ==> sec1_canonical(v@) == Some(v@),
{
    match k256::ecdsa::VerifyingKey::from_sec1_bytes(bytes) {
        Ok(vk) => Ok(vk.to_sec1_bytes().to_vec()),
        Err(e) => Err(e.to_string()),
    }
}

/// The canonical 64-byte form of the signature that `bytes` encodes, when it
/// encodes one.
pub uninterp spec fn ecdsa_sig_canonical(bytes: Seq<u8>) -> Option<Seq<u8>>;

/// Relies on k256's `Signature::from_slice` and `to_bytes`: parses an ECDSA
/// signature and re-encodes its two scalars. The 64-byte canonical form
/// parses back to the same signature, so the result is a fixed point of the
/// re-encoding.
#[verifier::external_body]
fn sig_reencode(bytes: &[u8]) -> (r: Result<Vec<u8>, String>)
    ensures
        match r {
            Ok(v) => ecdsa_sig_canonical(bytes@) == Some(v@),
            Err(_) => ecdsa_sig_canonical(bytes@) is None,
        },
        r matches Ok(v) ==> ecdsa_sig_canonical(v@) == Some(v@),
{
    match k256::ecdsa::Signature::from_slice(bytes) {
        Ok(sig) => Ok(sig.to_bytes().to_vec()),
        Err(e) => Err(e.to_string()),
    }
}

/// The compressed public key of a secret scalar, or `None` when the bytes
/// are not a valid nonzero scalar. A function of the secret bytes alone.
pub uninterp spec fn ecdsa_public_of(secret: Seq<u8>) -> Option<Seq<u8>>;

/// Relies on k256's `SigningKey::from_slice`, `verifying_key` and
/// `to_sec1_bytes`: derives the compressed public key of a secret scalar.
/// The derived encoding is compressed SEC1, hence a fixed point of
/// [`sec1_canonical`].
#[verifier::external_body]
fn derive_public(secret: &[u8]) -> (r: Option<Vec<u8>>)
    ensures
        match r {
            Some(v) => ecdsa_public_of(secret@) == Some(v@),
            None => ecdsa_public_of(secret@) is None,
        },
        r matches Some(v) ==> sec1_canonical(v@) == Some(v@),
{
    k256::ecdsa::SigningKey::from_slice(secret).ok().map(
        |sk| sk.verifying_key().to_sec1_bytes().to_vec(),
    )
}

/// The deterministic ECDSA signature of a message under a secret scalar
/// (k256 signs by the derandomized scheme of RFC 6979), or `None` when the
/// bytes are not a valid scalar.
pub uninterp spec fn ecdsa_sign_of(secret: Seq<u8>, msg: Seq<u8>) -> Option<Seq<u8>>;

/// Relies on k256's `SigningKey::from_slice` and `signature::SignerMut`:
/// signs a message; RFC 6979 makes the result a function of the secret and
/// the message alone. Signing succeeds exactly when the secret parses, and
/// a produced signature verifies under the secret's derived public key.
#[verifier::external_body]
fn sign_message(secret: &[u8], msg: &[u8]) -> (r: Option<Vec<u8>>)
    ensures
        match r {
            Some(v) => ecdsa_sign_of(secret@, msg@) == Some(v@),
            None => ecdsa_sign_of(secret@, msg@) is None,
        },
        r is Some <==> ecdsa_public_of(secret@) is Some,
        r matches Some(v) ==> (ecdsa_public_of(secret@) matches Some(pk) ==> ecdsa_verifies(
            pk,
            msg@,
            v@,
        )),
{
    k256::ecdsa::SigningKey::from_slice(secret).ok().map(|mut sk| {
        let sig: k256::ecdsa::Signature = k256::ecdsa::signature::SignerMut::sign(&mut sk, msg);
        sig.to_bytes().to_vec()
    })
}

/// The signature of a 32-byte prehashed digest under a secret scalar, again
/// a function of its arguments alone.
pub uninterp spec fn ecdsa_sign_prehash_of(secret: Seq<u8>, digest: Seq<u8>) -> Option<Seq<u8>>;

/// Relies on k256's `sign_prehash_recoverable`: signs a prehashed digest.
/// A signature only ever comes from a secret that parses; nothing more is
/// claimed, as this library's `verify` hashes its message and so never
/// checks a prehashed signature against its own digest.
#[verifier::external_body]
fn sign_prehash(secret: &[u8], digest: &[u8; 32]) -> (r: Option<Vec<u8>>)
    ensures
        match r {
            Some(v) => ecdsa_sign_prehash_of(secret@, digest@) == Some(v@),
            None => ecdsa_sign_prehash_of(secret@, digest@) is None,
        },
        r is Some ==> ecdsa_public_of(secret@) is Some,
{
    let sk = k256::ecdsa::SigningKey::from_slice(secret).ok()?;
    sk.sign_prehash_recoverable(digest).ok().map(|(sig, _)| sig.to_bytes().to_vec())
}

/// Whether the signature verifies for the message under the public key; a
/// function of its arguments alone.
pub uninterp spec fn ecdsa_verifies(public: Seq<u8>, msg: Seq<u8>, sig: Seq<u8>) -> bool;

/// Relies on k256's `VerifyingKey::from_sec1_bytes`, `Signature::from_slice`
/// and `signature::Verifier`: checks one signature; malformed keys or
/// signatures verify as false.
#[verifier::external_body]
fn verify_signature(public: &[u8], msg: &[u8], sig: &[u8]) -> (r: bool)
    ensures
        r == ecdsa_verifies(public@, msg@, sig@),
{
    match (k256::ecdsa::VerifyingKey::from_sec1_bytes(public), k256::ecdsa::Signature::from_slice(sig)) {
        (Ok(vk), Ok(s)) => k256::ecdsa::signature::Verifier::verify(&vk, msg, &s).is_ok(),
        _ => false,
    }
}

/// Relies on rand's `thread_rng`: 32 bytes drawn from the system generator.
#[verifier::external_body]
pub(crate) fn random_seed32() -> (r: Vec<u8>)
    ensures
        r@.len() == 32,
{
    let mut bytes = [0u8; 32];
    rand::RngCore::fill_bytes(&mut rand::thread_rng(), &mut bytes);
    bytes.to_vec()
}

/// The value of one hexadecimal digit, either case.
pub open spec fn hex_digit_value(c: char) -> Option<int> {
    if '0' <= c && c <= '9' {
        Some(c as int - '0' as int)
    } else if 'a' <= c && c <= 'f' {
        Some(10 + c as int - 'a' as int)
    } else if 'A' <= c && c <= 'F' {
        Some(10 + c as int - 'A' as int)
    } else {
        None
    }
}

/// What a hexadecimal string decodes to: one byte per digit pair, `None` for
/// an odd length or a character that is no hexadecimal digit.
pub open spec fn hex_decode_spec(s: Seq<char>) -> Option<Seq<u8>>
    decreases s.len(),
{
    if s.len() % 2 != 0 {
        None
    } else if s.len() == 0 {
        Some(Seq::empty())
    } else {
        match (hex_digit_value(s[0]), hex_digit_value(s[1])) {
            (Some(hi), Some(lo)) => match hex_decode_spec(s.skip(2)) {
                Some(rest) => Some(seq![(hi * 16 + lo) as u8] + rest),
                None => None,
            },
            _ => None,
        }
    }
}

/// Relies on hex's `decode`: hexadecimal to bytes, two digits per byte,
/// upper or lower case, failing on an odd length or a stray character.
#[verifier::external_body]
fn hex_decode(s: &str) -> (r: Option<Vec<u8>>)
    ensures
        match r {
            Some(v) => hex_decode_spec(s@) == Some(v@),
            None => hex_decode_spec(s@) is None,
        },
{
    hex::decode(s).ok()
}

/// A seed padded to the 32 bytes of a secp256k1 scalar with trailing zeros.
pub open spec fn pad32(seed: Seq<u8>) -> Seq<u8>
    recommends
        seed.len() <= 32,
{
    seed + Seq::new((32 - seed.len()) as nat, |i: int| 0u8)
}

/// The ECDSA key scheme over secp256k1.
pub struct K256Ecdsa;

/// A secp256k1 public key, held in its compressed SEC1 encoding.
#[derive(Debug, Clone)]
pub struct K256VerifyingKey {
    pub bytes: Vec<u8>,
}

impl K256VerifyingKey {
    /// The key is held in the encoding k256 itself produces: re-encoding
    /// its bytes gives them back unchanged.
    pub open spec fn wf(&self) -> bool {
        sec1_canonical(self.bytes@) == Some(self.bytes@)
    }

    /// The key's SEC1 encoding.
    pub fn to_bytes(&self) -> (r: Vec<u8>)
        ensures
            r@ == self.bytes@,
    {
        self.bytes.clone()
    }

    /// Parses a SEC1 encoding, compressed or not, and holds the key in
    /// compressed form; fails exactly on bytes that encode no public key.
    /// A parsed key is well-formed, so its bytes round-trip through
    /// [`Self::to_bytes`] and back.
    pub fn from_bytes(bytes: &[u8]) -> (r: Result<Self, K256Error>)
        ensures
            match r {
                Ok(k) => sec1_canonical(bytes@) == Some(k.bytes@) && k.wf(),
                Err(e) => sec1_canonical(bytes@) is None && e is InvalidVerifyingKey,
            },
    {
        match sec1_reencode(bytes) {
            Ok(canonical) => Ok(K256VerifyingKey { bytes: canonical }),
            Err(message) => Err(K256Error::InvalidVerifyingKey(message)),
        }
    }
}

/// An ECDSA signature, held in its canonical 64-byte encoding.
#[derive(Debug, Clone)]
pub struct K256Signature {
    pub bytes: Vec<u8>,
}

impl K256Signature {
    /// The signature is held in its canonical encoding: re-encoding its
    /// bytes gives them back unchanged.
    pub open spec fn wf(&self) -> bool {
        ecdsa_sig_canonical(self.bytes@) == Some(self.bytes@)
    }

    /// The signature's canonical encoding.
    pub fn to_bytes(&self) -> (r: Vec<u8>)
        ensures
            r@ == self.bytes@,
    {
        self.bytes.clone()
    }

    /// Parses a signature encoding; fails exactly on bytes that encode no
    /// signature. A parsed signature is well-formed, so its bytes
    /// round-trip through [`Self::to_bytes`] and back.
    pub fn from_bytes(bytes: &[u8]) -> (r: Result<Self, K256Error>)
        ensures
            match r {
                Ok(s) => ecdsa_sig_canonical(bytes@) == Some(s.bytes@) && s.wf(),
                Err(e) => ecdsa_sig_canonical(bytes@) is None && e is InvalidSignature,
            },
    {
        match sig_reencode(bytes) {
            Ok(canonical) => Ok(K256Signature { bytes: canonical }),
            Err(message) => Err(K256Error::InvalidSignature(message)),
        }
    }
}

/// A secp256k1 signing key: the secret scalar with its derived public key.
#[derive(Debug, Clone)]
pub struct K256SigningKey {
    /// The 32 secret scalar bytes.
    pub secret: Vec<u8>,
    /// The compressed public key belonging to the secret.
    pub public: Vec<u8>,
}

impl K256SigningKey {
    /// The held public key is the one the secret derives, in the canonical
    /// compressed encoding.
    pub open spec fn wf(&self) -> bool {
        &&& ecdsa_public_of(self.secret@) == Some(self.public@)
        &&& sec1_canonical(self.public@) == Some(self.public@)
    }

    /// The key's verifying half.
    pub fn verifying_key(&self) -> (r: K256VerifyingKey)
        ensures
            r.bytes@ == self.public@,
            self.wf() ==> ecdsa_public_of(self.secret@) == Some(r.bytes@) && r.wf(),
    {
        K256VerifyingKey { bytes: self.public.clone() }
    }

    /// Alias for [`Self::verifying_key`], for consistency.
    pub fn public(&self) -> (r: K256VerifyingKey)
        ensures
            r.bytes@ == self.public@,
            self.wf() ==> ecdsa_public_of(self.secret@) == Some(r.bytes@) && r.wf(),
    {
        self.verifying_key()
    }
}

impl K256Ecdsa {
    /// The scheme's identifier.
    pub fn key_type_id() -> (r: KeyTypeId)
        ensures
            r == KeyTypeId::K256Ecdsa,
    {
        KeyTypeId::K256Ecdsa
    }

    /// Generates a signing key. A given seed is padded to 32 bytes with
    /// trailing zeros — a longer seed is rejected — and must land on a valid
    /// scalar; without a seed, fresh random bytes are drawn.
    pub fn generate_with_seed(seed: Option<&[u8]>) -> (r: Result<K256SigningKey, K256Error>)
        ensures
            r matches Ok(k) ==> k.wf(),
            seed matches Some(s) ==> (s@.len() > 32 ==> (r matches Err(e) && e is InvalidSeed)),
            seed matches Some(s) ==> (s@.len() <= 32 ==> match r {
                Ok(k) => k.secret@ == pad32(s@),
                Err(e) => ecdsa_public_of(pad32(s@)) is None && e is InvalidSeed,
            }),
    {
        let secret: Vec<u8> = match seed {
            Some(s) => {
                if s.len() > 32 {
                    return Err(K256Error::InvalidSeed("Seed must not exceed 32 bytes".to_string()));
                }
                let mut padded: Vec<u8> = Vec::new();
                let mut i: usize = 0;
                while i < s.len()
                    invariant
                        i <= s@.len(),
                        padded@ == s@.take(i as int),
                    decreases s@.len() - i,
                {
                    padded.push(s[i]);
                    assert(padded@ =~= s@.take(i + 1));
                    i = i + 1;
                }
                assert(padded@ =~= s@);
                while padded.len() < 32
                    invariant
                        s@.len() <= padded@.len() <= 32,
                        padded@.take(s@.len() as int) == s@,
                        forall|k: int| s@.len() <= k < padded@.len() ==> padded@[k] == 0u8,
                    decreases 32 - padded@.len(),
                {
                    padded.push(0);
                    assert(padded@.take(s@.len() as int) =~= s@);
                }
                assert(padded@ =~= pad32(s@));
                padded
            },
            None => random_seed32(),
        };
        match derive_public(&secret) {
            Some(public) => Ok(K256SigningKey { secret, public }),
            None => Err(K256Error::InvalidSeed("seed is not a valid secret scalar".to_string())),
        }
    }

    /// Generates a signing key from a hexadecimal secret string.
    pub fn generate_with_string(secret: String) -> (r: Result<K256SigningKey, K256Error>)
        ensures
            match hex_decode_spec(secret@) {
                None => r matches Err(K256Error::InvalidHexEncoding),
                Some(bytes) => match r {
                    Ok(k) => k.secret@ == bytes && k.wf(),
                    Err(e) => ecdsa_public_of(bytes) is None && e is InvalidSeed,
                },
            },
    {
        let decoded = match hex_decode(secret.as_str()) {
            Some(bytes) => bytes,
            None => {
                return Err(K256Error::InvalidHexEncoding);
            },
        };
        match derive_public(&decoded) {
            Some(public) => Ok(K256SigningKey { secret: decoded, public }),
            None => Err(
                K256Error::InvalidSeed("secret is not a valid secret scalar".to_string()),
            ),
        }
    }

    /// The public key a secret derives.
    pub fn public_from_secret(secret: &K256SigningKey) -> (r: K256VerifyingKey)
        ensures
            r.bytes@ == secret.public@,
            secret.wf() ==> ecdsa_public_of(secret.secret@) == Some(r.bytes@) && r.wf(),
    {
        secret.verifying_key()
    }

    /// Signs a message; the signature is a function of the secret and the
    /// message alone. A well-formed key always signs, and the signature
    /// verifies under the key's public half.
    pub fn sign_with_secret(secret: &mut K256SigningKey, msg: &[u8]) -> (r: Result<
        K256Signature,
        K256Error,
    >)
        ensures
            *final(secret) == *old(secret),
            match ecdsa_sign_of(old(secret).secret@, msg@) {
                Some(sig) => r matches Ok(s) && s.bytes@ == sig,
                None => r matches Err(e) && e is SignatureFailed,
            },
            old(secret).wf() ==> r is Ok,
            old(secret).wf() ==> (r matches Ok(s) ==> ecdsa_verifies(
                old(secret).public@,
                msg@,
                s.bytes@,
            )),
    {
        match sign_message(&secret.secret, msg) {
            Some(bytes) => Ok(K256Signature { bytes }),
            None => Err(K256Error::SignatureFailed("invalid secret scalar".to_string())),
        }
    }

    /// Signs a 32-byte prehashed digest.
    pub fn sign_with_secret_pre_hashed(secret: &mut K256SigningKey, msg: &[u8; 32]) -> (r: Result<
        K256Signature,
        K256Error,
    >)
        ensures
            *final(secret) == *old(secret),
            match ecdsa_sign_prehash_of(old(secret).secret@, msg@) {
                Some(sig) => r matches Ok(s) && s.bytes@ == sig,
                None => r matches Err(e) && e is SignatureFailed,
            },
    {
        match sign_prehash(&secret.secret, msg) {
            Some(bytes) => Ok(K256Signature { bytes }),
            None => Err(K256Error::SignatureFailed("invalid secret scalar".to_string())),
        }
    }

    /// Whether the signature verifies for the message under the public key.
    pub fn verify(public: &K256VerifyingKey, msg: &[u8], signature: &K256Signature) -> (r: bool)
        ensures
            r == ecdsa_verifies(public.bytes@, msg@, signature.bytes@),
    {
        verify_signature(&public.bytes, msg, &signature.bytes)
    }
}

} // verus!
