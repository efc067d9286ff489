//! Tests for the node identity type and its derived public identifier.

use node_tls_resolver::SecretKey;

fn seed_a() -> Vec<u8> {
    (0u8..32u8).map(|i| i.wrapping_mul(11).wrapping_add(1)).collect()
}

#[test]
fn node_identifier_matches_independent_derivation() {
    let seed = seed_a();
    let key = SecretKey::from_bytes(seed.clone());
    assert!(key.well_formed());
    let mut raw = [0u8; 32];
    raw.copy_from_slice(&seed);
    let expected = ed25519_dalek::SigningKey::from_bytes(&raw).verifying_key().to_bytes();
    assert_eq!(key.node_identifier().as_slice(), &expected[..]);
}

#[test]
fn node_identifier_is_deterministic() {
    let first = SecretKey::from_bytes(seed_a());
    let second = SecretKey::from_bytes(seed_a());
    assert_eq!(first.node_identifier(), second.node_identifier());
}

#[test]
fn well_formedness_is_exactly_thirty_two_bytes() {
    assert!(SecretKey::from_bytes(vec![0u8; 32]).well_formed());
    assert!(!SecretKey::from_bytes(vec![0u8; 31]).well_formed());
    assert!(!SecretKey::from_bytes(vec![0u8; 33]).well_formed());
    assert!(!SecretKey::from_bytes(Vec::new()).well_formed());
}

#[test]
fn secret_key_keeps_its_bytes() {
    let seed = seed_a();
    let key = SecretKey::from_bytes(seed.clone());
    assert_eq!(key.as_bytes().as_slice(), seed.as_slice());
}
