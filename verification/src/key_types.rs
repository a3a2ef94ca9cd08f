use vstd::prelude::*;

verus! {

/// Identifier of a key scheme that a keystore can hold.
#[derive(Debug, Clone, Copy, PartialEq, Eq, Hash, Structural)]
pub enum KeyTypeId {
    ArkBn254,
    K256Ecdsa,
    SchnorrkelSr25519,
    W3fBls381,
    W3fBls377,
    ZebraEd25519,
    SpBls377,
    SpBls381,
    SpEcdsa,
    SpEd25519,
    SpSr25519,
}

impl KeyTypeId {
    /// The scheme's canonical lower-case name.
    pub fn name(&self) -> (r: &'static str)
        ensures
            r@ == self.name_spec(),
    {
        match *self {
            KeyTypeId::ArkBn254 => "ark-bn254",
            KeyTypeId::K256Ecdsa => "k256-ecdsa",
            KeyTypeId::SchnorrkelSr25519 => "schnorrkel-sr25519",
            KeyTypeId::W3fBls381 => "w3f-bls381",
            KeyTypeId::W3fBls377 => "w3f-bls377",
            KeyTypeId::ZebraEd25519 => "zebra-ed25519",
            KeyTypeId::SpBls377 => "sp-bls377",
            KeyTypeId::SpBls381 => "sp-bls381",
            KeyTypeId::SpEcdsa => "sp-ecdsa",
            KeyTypeId::SpEd25519 => "sp-ed25519",
            KeyTypeId::SpSr25519 => "sp-sr25519",
        }
    }

    pub open spec fn name_spec(&self) -> Seq<char> {
        match *self {
            KeyTypeId::ArkBn254 => "ark-bn254"@,
            KeyTypeId::K256Ecdsa => "k256-ecdsa"@,
            KeyTypeId::SchnorrkelSr25519 => "schnorrkel-sr25519"@,
            KeyTypeId::W3fBls381 => "w3f-bls381"@,
            KeyTypeId::W3fBls377 => "w3f-bls377"@,
            KeyTypeId::ZebraEd25519 => "zebra-ed25519"@,
            KeyTypeId::SpBls377 => "sp-bls377"@,
            KeyTypeId::SpBls381 => "sp-bls381"@,
            KeyTypeId::SpEcdsa => "sp-ecdsa"@,
            KeyTypeId::SpEd25519 => "sp-ed25519"@,
            KeyTypeId::SpSr25519 => "sp-sr25519"@,
        }
    }
}

} // verus!
