use blueprint_runner::bls377::W3fBls377;
use blueprint_runner::bls381::W3fBls381;
use blueprint_runner::k256_ecdsa::{K256Ecdsa, K256Signature, K256VerifyingKey};
use blueprint_runner::key_types::KeyTypeId;

#[test]
fn test_bls381_key_generation() {
    // Test random key generation
    let secret = W3fBls381::generate_with_seed(None).unwrap();
    let public = W3fBls381::public_from_secret(&secret);

    // Test generation with seed
    let seed: [u8; 32] = [1u8; 32];
    let secret_with_seed = W3fBls381::generate_with_seed(Some(&seed)).unwrap();
    let public_with_seed = W3fBls381::public_from_secret(&secret_with_seed);

    assert_ne!(
        secret.to_bytes(),
        secret_with_seed.to_bytes(),
        "Random and seeded keys should be different"
    );
    assert_ne!(
        public.to_bytes(),
        public_with_seed.to_bytes(),
        "Public keys should be different"
    );
}

#[test]
fn test_bls381_sign_and_verify() {
    let seed: [u8; 32] = [1u8; 32];
    let mut secret = W3fBls381::generate_with_seed(Some(&seed)).unwrap();
    let public = W3fBls381::public_from_secret(&secret);

    // Test normal signing
    let message = b"Hello, world!";
    let signature = W3fBls381::sign_with_secret(&mut secret, message).unwrap();
    assert!(
        W3fBls381::verify(&public, message, &signature),
        "Signature verification failed"
    );

    // Test pre-hashed signing
    let hashed_msg = [42u8; 32];
    let signature = W3fBls381::sign_with_secret_pre_hashed(&mut secret, &hashed_msg).unwrap();

    // Verify with wrong message should fail
    let wrong_message = b"Wrong message";
    assert!(
        !W3fBls381::verify(&public, wrong_message, &signature),
        "Verification should fail with wrong message"
    );
}

#[test]
fn test_bls377_key_generation() {
    // Test random key generation
    let secret = W3fBls377::generate_with_seed(None).unwrap();
    let public = W3fBls377::public_from_secret(&secret);

    // Test generation with seed
    let seed: [u8; 32] = [1u8; 32];
    let secret_with_seed = W3fBls377::generate_with_seed(Some(&seed)).unwrap();
    let public_with_seed = W3fBls377::public_from_secret(&secret_with_seed);

    assert_ne!(
        secret.to_bytes(),
        secret_with_seed.to_bytes(),
        "Random and seeded keys should be different"
    );
    assert_ne!(
        public.to_bytes(),
        public_with_seed.to_bytes(),
        "Public keys should be different"
    );
}

#[test]
fn test_bls377_sign_and_verify() {
    let seed: [u8; 32] = [1u8; 32];
    let mut secret = W3fBls377::generate_with_seed(Some(&seed)).unwrap();
    let public = W3fBls377::public_from_secret(&secret);

    // Test normal signing
    let message = b"Hello, world!";
    let signature = W3fBls377::sign_with_secret(&mut secret, message).unwrap();
    assert!(
        W3fBls377::verify(&public, message, &signature),
        "Signature verification failed"
    );

    // Test pre-hashed signing
    let hashed_msg = [42u8; 32];
    let signature = W3fBls377::sign_with_secret_pre_hashed(&mut secret, &hashed_msg).unwrap();

    // Verify with wrong message should fail
    let wrong_message = b"Wrong message";
    assert!(
        !W3fBls377::verify(&public, wrong_message, &signature),
        "Verification should fail with wrong message"
    );
}

#[test]
fn bls_seeded_generation_is_deterministic() {
    let seed: [u8; 32] = [7u8; 32];
    let first = W3fBls381::generate_with_seed(Some(&seed)).unwrap();
    let second = W3fBls381::generate_with_seed(Some(&seed)).unwrap();
    assert_eq!(first.to_bytes(), second.to_bytes());
    assert_eq!(
        W3fBls381::public_from_secret(&first).to_bytes(),
        W3fBls381::public_from_secret(&second).to_bytes()
    );
}

#[test]
fn k256_key_generation_is_deterministic_per_seed() {
    let seed = [1u8; 32];
    let first = K256Ecdsa::generate_with_seed(Some(&seed)).unwrap();
    let second = K256Ecdsa::generate_with_seed(Some(&seed)).unwrap();
    assert_eq!(first.verifying_key().to_bytes(), second.verifying_key().to_bytes());

    let random = K256Ecdsa::generate_with_seed(None).unwrap();
    assert_ne!(random.verifying_key().to_bytes(), first.verifying_key().to_bytes());
}

#[test]
fn k256_short_seeds_are_padded_with_zeros() {
    let short: [u8; 4] = [9, 9, 9, 9];
    let mut padded = [0u8; 32];
    padded[..4].copy_from_slice(&short);
    let from_short = K256Ecdsa::generate_with_seed(Some(&short)).unwrap();
    let from_padded = K256Ecdsa::generate_with_seed(Some(&padded)).unwrap();
    assert_eq!(from_short.verifying_key().to_bytes(), from_padded.verifying_key().to_bytes());
}

#[test]
fn k256_rejects_oversized_seeds_and_zero_scalars() {
    let long = [1u8; 33];
    assert!(K256Ecdsa::generate_with_seed(Some(&long)).is_err());
    let zero = [0u8; 32];
    assert!(K256Ecdsa::generate_with_seed(Some(&zero)).is_err(), "zero is no secret scalar");
}

#[test]
fn k256_generate_with_string_matches_seed_bytes() {
    let seed = [1u8; 32];
    let hex_string: String = "01".repeat(32);
    let from_string = K256Ecdsa::generate_with_string(hex_string).unwrap();
    let from_seed = K256Ecdsa::generate_with_seed(Some(&seed)).unwrap();
    assert_eq!(
        from_string.verifying_key().to_bytes(),
        from_seed.verifying_key().to_bytes(),
        "String-based key generation should match seed-based"
    );
    assert!(K256Ecdsa::generate_with_string("0".to_string()).is_err(), "odd length");
    assert!(K256Ecdsa::generate_with_string("zz".to_string()).is_err(), "no hex digits");
}

#[test]
fn k256_sign_and_verify_roundtrip() {
    let seed = [3u8; 32];
    let mut secret = K256Ecdsa::generate_with_seed(Some(&seed)).unwrap();
    let public = K256Ecdsa::public_from_secret(&secret);

    let message = b"Hello, world!";
    let signature = K256Ecdsa::sign_with_secret(&mut secret, message).unwrap();
    assert!(K256Ecdsa::verify(&public, message, &signature), "Signature verification failed");

    let wrong_message = b"Wrong message";
    assert!(
        !K256Ecdsa::verify(&public, wrong_message, &signature),
        "Verification should fail with wrong message"
    );

    let hashed: [u8; 32] = [42u8; 32];
    let prehashed_signature =
        K256Ecdsa::sign_with_secret_pre_hashed(&mut secret, &hashed).unwrap();
    assert!(!prehashed_signature.to_bytes().is_empty());
}

#[test]
fn k256_verifying_key_bytes_roundtrip() {
    let seed = [5u8; 32];
    let secret = K256Ecdsa::generate_with_seed(Some(&seed)).unwrap();
    let public = secret.public();
    let bytes = public.to_bytes();
    assert_eq!(bytes.len(), 33, "compressed SEC1 form");
    let parsed = K256VerifyingKey::from_bytes(&bytes).unwrap();
    assert_eq!(parsed.to_bytes(), bytes);
    assert!(K256VerifyingKey::from_bytes(&[0u8; 33]).is_err());
}

#[test]
fn k256_signature_bytes_roundtrip() {
    let seed = [6u8; 32];
    let mut secret = K256Ecdsa::generate_with_seed(Some(&seed)).unwrap();
    let signature = K256Ecdsa::sign_with_secret(&mut secret, b"payload").unwrap();
    let bytes = signature.to_bytes();
    assert_eq!(bytes.len(), 64);
    let parsed = K256Signature::from_bytes(&bytes).unwrap();
    assert_eq!(parsed.to_bytes(), bytes);
    assert!(K256Signature::from_bytes(&[0u8; 64]).is_err(), "zero scalars are invalid");
}

#[test]
fn key_type_ids_have_their_names() {
    assert_eq!(K256Ecdsa::key_type_id(), KeyTypeId::K256Ecdsa);
    assert_eq!(KeyTypeId::K256Ecdsa.name(), "k256-ecdsa");
    assert_eq!(KeyTypeId::W3fBls381.name(), "w3f-bls381");
    assert_eq!(KeyTypeId::W3fBls377.name(), "w3f-bls377");
    assert_eq!(KeyTypeId::SpSr25519.name(), "sp-sr25519");
    assert_eq!(KeyTypeId::ArkBn254.name(), "ark-bn254");
}
