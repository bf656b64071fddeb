use soroban_sdk::{Bytes, Env};
use stellar_guilds::spam_protection::types::{InitializerProof, SpamError};
use stellar_guilds::spam_protection::verification::{
    check_proof_hash, claim_nonce, meets_difficulty, verify_proof, POW_LEADING_ZERO_BITS,
};

fn test_env() -> Env {
    let env = Env::default();
    env.cost_estimate().budget().reset_unlimited();
    env
}

/// Build a `Bytes` value from a fixed-size array literal.
fn bytes_from_slice(env: &Env, data: &[u8]) -> Bytes {
    Bytes::from_slice(env, data)
}

// Helper: produce a 32-byte hash with a given first byte, rest zeroed.
fn hash_with_first_byte(env: &Env, first: u8) -> Bytes {
    let mut raw = [0u8; 32];
    raw[0] = first;
    bytes_from_slice(env, &raw)
}

#[test]
fn test_meets_difficulty_all_zeros_passes() {
    let env = test_env();
    let hash = bytes_from_slice(&env, &[0u8; 32]);
    assert!(meets_difficulty(&hash, 16));
    assert!(meets_difficulty(&hash, 24));
}

#[test]
fn test_meets_difficulty_first_byte_nonzero_fails() {
    let env = test_env();
    let hash = hash_with_first_byte(&env, 0x01);
    assert!(!meets_difficulty(&hash, 16)); // first 16 bits must be 0
}

#[test]
fn test_meets_difficulty_partial_byte() {
    let env = test_env();
    // 0x0F = 0000_1111: first 4 bits are zero, so a 4-bit requirement passes
    let hash = bytes_from_slice(&env, &[0x00, 0x0f, 0, 0, 0, 0, 0, 0, 0, 0, 0, 0, 0, 0, 0, 0]);
    assert!(meets_difficulty(&hash, 12)); // 1 zero byte + 4 zero bits in byte[1]
    assert!(!meets_difficulty(&hash, 13)); // byte[1] bit 4 is set: fails 13-bit check
}

#[test]
fn test_meets_difficulty_zero_requirement_always_passes() {
    let env = test_env();
    let hash = bytes_from_slice(&env, &[0xff; 32]);
    assert!(meets_difficulty(&hash, 0));
}

#[test]
fn test_empty_proof_returns_missing_error() {
    let env = test_env();
    let mut used: soroban_sdk::Map<u64, bool> = soroban_sdk::Map::new(&env);
    let proof = InitializerProof { hash: Bytes::new(&env), nonce: 42 };
    assert_eq!(verify_proof(&mut used, &proof), Err(SpamError::MissingProof));
}

#[test]
fn test_insufficient_difficulty_returns_invalid_proof() {
    let env = test_env();
    let mut used: soroban_sdk::Map<u64, bool> = soroban_sdk::Map::new(&env);
    // Hash with non-zero first byte: difficulty 16 fails.
    let proof = InitializerProof { hash: hash_with_first_byte(&env, 0x01), nonce: 1 };
    assert_eq!(verify_proof(&mut used, &proof), Err(SpamError::InvalidProof));
}

#[test]
fn test_valid_proof_accepted() {
    let env = test_env();
    let mut used: soroban_sdk::Map<u64, bool> = soroban_sdk::Map::new(&env);
    // All-zero hash passes any difficulty.
    let proof = InitializerProof { hash: bytes_from_slice(&env, &[0u8; 32]), nonce: 99 };
    assert_eq!(verify_proof(&mut used, &proof), Ok(()));
}

#[test]
fn test_nonce_reuse_rejected() {
    let env = test_env();
    let mut used: soroban_sdk::Map<u64, bool> = soroban_sdk::Map::new(&env);
    let proof = InitializerProof { hash: bytes_from_slice(&env, &[0u8; 32]), nonce: 7 };
    // First use succeeds.
    assert_eq!(verify_proof(&mut used, &proof), Ok(()));
    // Second use with same nonce fails.
    let proof2 = InitializerProof { hash: bytes_from_slice(&env, &[0u8; 32]), nonce: 7 };
    assert_eq!(verify_proof(&mut used, &proof2), Err(SpamError::NonceReused));
}

#[test]
fn test_different_nonces_both_accepted() {
    let env = test_env();
    let mut used: soroban_sdk::Map<u64, bool> = soroban_sdk::Map::new(&env);
    let proof_a = InitializerProof { hash: bytes_from_slice(&env, &[0u8; 32]), nonce: 100 };
    let proof_b = InitializerProof { hash: bytes_from_slice(&env, &[0u8; 32]), nonce: 101 };
    assert_eq!(verify_proof(&mut used, &proof_a), Ok(()));
    assert_eq!(verify_proof(&mut used, &proof_b), Ok(()));
}

// ─── Further cases ────────────────────────────────────────────────────────────

#[test]
fn difficulty_constant_is_sixteen_bits() {
    assert_eq!(POW_LEADING_ZERO_BITS, 16);
}

#[test]
fn difficulty_needs_the_bytes_to_exist() {
    let env = test_env();
    // One zero byte holds only 8 zero bits.
    let short = bytes_from_slice(&env, &[0u8]);
    assert!(meets_difficulty(&short, 8));
    assert!(!meets_difficulty(&short, 9));
    assert!(!meets_difficulty(&short, 16));
    let empty = Bytes::new(&env);
    assert!(meets_difficulty(&empty, 0));
    assert!(!meets_difficulty(&empty, 1));
}

#[test]
fn difficulty_checks_each_partial_width() {
    let env = test_env();
    // second byte 0b0001_0000: bits 8..=10 are zero, bit 11 is set.
    let hash = bytes_from_slice(&env, &[0x00, 0x10, 0xff]);
    for bits in 0..=11u32 {
        assert!(meets_difficulty(&hash, bits), "bits = {}", bits);
    }
    for bits in 12..=24u32 {
        assert!(!meets_difficulty(&hash, bits), "bits = {}", bits);
    }
}

#[test]
fn difficulty_first_bit_set_fails_one_bit() {
    let env = test_env();
    let hash = hash_with_first_byte(&env, 0x80);
    assert!(!meets_difficulty(&hash, 1));
    let hash = hash_with_first_byte(&env, 0x40);
    assert!(meets_difficulty(&hash, 1));
    assert!(!meets_difficulty(&hash, 2));
}

#[test]
fn difficulty_is_monotone_on_a_sample() {
    let env = test_env();
    let hash = bytes_from_slice(&env, &[0x00, 0x00, 0x03, 0x55]);
    // 22 leading zero bits
    for bits in 0..=32u32 {
        assert_eq!(meets_difficulty(&hash, bits), bits <= 22, "bits = {}", bits);
    }
}

#[test]
fn refused_proofs_record_no_nonce() {
    let env = test_env();
    let mut used: soroban_sdk::Map<u64, bool> = soroban_sdk::Map::new(&env);
    let weak = InitializerProof { hash: hash_with_first_byte(&env, 0xff), nonce: 5 };
    assert_eq!(verify_proof(&mut used, &weak), Err(SpamError::InvalidProof));
    let empty = InitializerProof { hash: Bytes::new(&env), nonce: 5 };
    assert_eq!(verify_proof(&mut used, &empty), Err(SpamError::MissingProof));
    assert_eq!(used.len(), 0);
    // The nonce is still free for a valid proof.
    let good = InitializerProof { hash: bytes_from_slice(&env, &[0u8; 32]), nonce: 5 };
    assert_eq!(verify_proof(&mut used, &good), Ok(()));
    assert_eq!(used.get(5), Some(true));
    assert_eq!(used.len(), 1);
}

#[test]
fn reused_nonce_refused_even_with_another_hash() {
    let env = test_env();
    let mut used: soroban_sdk::Map<u64, bool> = soroban_sdk::Map::new(&env);
    let first = InitializerProof { hash: bytes_from_slice(&env, &[0u8; 32]), nonce: 9 };
    assert_eq!(verify_proof(&mut used, &first), Ok(()));
    let other_hash = InitializerProof { hash: bytes_from_slice(&env, &[0x00, 0x00, 0x7f]), nonce: 9 };
    assert_eq!(verify_proof(&mut used, &other_hash), Err(SpamError::NonceReused));
    // The difficulty check comes before the replay check.
    let weak = InitializerProof { hash: hash_with_first_byte(&env, 0x01), nonce: 9 };
    assert_eq!(verify_proof(&mut used, &weak), Err(SpamError::InvalidProof));
}

#[test]
fn nonce_already_in_map_is_refused() {
    let env = test_env();
    let mut used: soroban_sdk::Map<u64, bool> = soroban_sdk::Map::new(&env);
    used.set(3, false);
    let proof = InitializerProof { hash: bytes_from_slice(&env, &[0u8; 32]), nonce: 3 };
    assert_eq!(verify_proof(&mut used, &proof), Err(SpamError::NonceReused));
    assert_eq!(used.get(3), Some(false));
}

#[test]
fn largest_nonce_recorded() {
    let env = test_env();
    let mut used: soroban_sdk::Map<u64, bool> = soroban_sdk::Map::new(&env);
    let proof = InitializerProof { hash: bytes_from_slice(&env, &[0u8; 2]), nonce: u64::MAX };
    assert_eq!(verify_proof(&mut used, &proof), Ok(()));
    assert!(used.contains_key(u64::MAX));
    assert_eq!(verify_proof(&mut used, &proof), Err(SpamError::NonceReused));
}

#[test]
fn hash_check_and_nonce_claim_separately() {
    let env = test_env();
    let empty = InitializerProof { hash: Bytes::new(&env), nonce: 1 };
    assert_eq!(check_proof_hash(&empty), Err(SpamError::MissingProof));
    let weak = InitializerProof { hash: bytes_from_slice(&env, &[0x00, 0x01]), nonce: 1 };
    assert_eq!(check_proof_hash(&weak), Err(SpamError::InvalidProof));
    let good = InitializerProof { hash: bytes_from_slice(&env, &[0x00, 0x00, 0xff]), nonce: 1 };
    assert_eq!(check_proof_hash(&good), Ok(()));

    let mut used: soroban_sdk::Map<u64, bool> = soroban_sdk::Map::new(&env);
    assert_eq!(claim_nonce(&mut used, 11), Ok(()));
    assert_eq!(claim_nonce(&mut used, 12), Ok(()));
    assert_eq!(claim_nonce(&mut used, 11), Err(SpamError::NonceReused));
    assert_eq!(used.len(), 2);
    assert_eq!(used.get(12), Some(true));
}

#[test]
fn each_nonce_accepted_at_most_once_over_a_sequence() {
    let env = test_env();
    let mut used: soroban_sdk::Map<u64, bool> = soroban_sdk::Map::new(&env);
    let good = |n: u64| InitializerProof { hash: bytes_from_slice(&env, &[0u8; 4]), nonce: n };
    let nonces = [1u64, 2, 1, 3, 2, 2, 4, 1];
    let mut accepted = 0;
    for n in nonces {
        if verify_proof(&mut used, &good(n)).is_ok() {
            accepted += 1;
        } else {
            assert_eq!(verify_proof(&mut used, &good(n)), Err(SpamError::NonceReused));
        }
    }
    assert_eq!(accepted, 4);
    assert_eq!(used.len(), 4);
}
