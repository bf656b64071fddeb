use vstd::prelude::*;

use crate::sdk::{bytes_contents, bytes_get, bytes_is_empty, nonce_map_contains_key, nonce_map_contents, nonce_map_set};
use crate::spam_protection::types::{InitializerProof, SpamError};

verus! {

/// Number of leading zero *bits* required in the proof hash.
///
/// Each additional bit doubles the expected mining work: 16 bits is about
/// 65 536 attempts on average, cheap for a human, expensive for a bot.
pub const POW_LEADING_ZERO_BITS: u32 = 16;

/// Bit `j` of `hash`, counting from the most significant bit of the first
/// byte (bit 0) towards the least significant bit of the last byte.
pub open spec fn hash_bit(hash: Seq<u8>, j: int) -> u8 {
    (hash[j / 8] >> ((7 - j % 8) as u8)) & 1u8
}

/// Bit `j` of `hash` exists and is 0.
pub open spec fn zero_bit_at(hash: Seq<u8>, j: int) -> bool {
    j / 8 < hash.len() && hash_bit(hash, j) == 0
}

/// The first `n` bits of `hash` exist and are all 0.
pub open spec fn leading_bits_zero(hash: Seq<u8>, n: int) -> bool {
    forall|j: int| 0 <= j < n ==> #[trigger] zero_bit_at(hash, j)
}

/// What `verify_proof` decides for a proof with the given hash bytes and
/// nonce, given the nonces used so far, and the used-nonce entries afterwards.
pub open spec fn proof_outcome(hash: Seq<u8>, nonce: u64, used: Map<u64, bool>) -> (
    Result<(), SpamError>,
    Map<u64, bool>,
) {
    if hash.len() == 0 {
        (Err(SpamError::MissingProof), used)
    } else if !leading_bits_zero(hash, POW_LEADING_ZERO_BITS as int) {
        (Err(SpamError::InvalidProof), used)
    } else if used.dom().contains(nonce) {
        (Err(SpamError::NonceReused), used)
    } else {
        (Ok(()), used.insert(nonce, true))
    }
}

/// Steps 1 and 2 of [`verify_proof`]: the proof's hash must be present and
/// must begin with [`POW_LEADING_ZERO_BITS`] zero bits.
pub fn check_proof_hash(proof: &InitializerProof) -> (r: Result<(), SpamError>)
    ensures
        r == (if bytes_contents(proof.hash).len() == 0 {
            Err(SpamError::MissingProof)
        } else if !leading_bits_zero(bytes_contents(proof.hash), POW_LEADING_ZERO_BITS as int) {
            Err(SpamError::InvalidProof)
        } else {
            Ok::<(), SpamError>(())
        }),
{
    // 1. Reject empty proof
    if bytes_is_empty(&proof.hash) {
        return Err(SpamError::MissingProof);
    }
    // 2. Difficulty check
    if !meets_difficulty(&proof.hash, POW_LEADING_ZERO_BITS) {
        return Err(SpamError::InvalidProof);
    }
    Ok(())
}

/// Steps 3 and 4 of [`verify_proof`]: refuse a nonce that `used` already
/// holds, and otherwise record it there.
pub fn claim_nonce(used: &mut soroban_sdk::Map<u64, bool>, nonce: u64) -> (r: Result<(), SpamError>)
    ensures
        nonce_map_contents(*old(used)).dom().contains(nonce) ==> r == Err::<(), SpamError>(SpamError::NonceReused)
            && *final(used) == *old(used),
        !nonce_map_contents(*old(used)).dom().contains(nonce) ==> r == Ok::<(), SpamError>(())
            && nonce_map_contents(*final(used)) == nonce_map_contents(*old(used)).insert(nonce, true),
{
    // 3. Nonce replay check
    if nonce_map_contains_key(used, nonce) {
        return Err(SpamError::NonceReused);
    }
    // 4. Record nonce
    nonce_map_set(used, nonce, true);
    Ok(())
}

/// Verify an `InitializerProof` against the map of used nonces.
///
/// Steps:
///   1. Reject an empty proof.
///   2. Check that the hash has the required number of leading zero bits.
///   3. Check that the nonce has not been used before (replay protection).
///   4. Record the nonce so that it cannot be used again.
///
/// On an error `used` is left exactly as it was.
pub fn verify_proof(used: &mut soroban_sdk::Map<u64, bool>, proof: &InitializerProof) -> (r: Result<(), SpamError>)
    ensures
        (r, nonce_map_contents(*final(used))) == proof_outcome(
            bytes_contents(proof.hash),
            proof.nonce,
            nonce_map_contents(*old(used)),
        ),
        r is Err ==> *final(used) == *old(used),
{
    match check_proof_hash(proof) {
        Ok(()) => claim_nonce(used, proof.nonce),
        Err(e) => Err(e),
    }
}

proof fn lemma_byte_position(j: int, i: int)
    requires
        8 * i <= j < 8 * i + 8,
    ensures
        j / 8 == i,
        j % 8 == j - 8 * i,
{
}

/// A nonzero byte has a set bit.
proof fn lemma_nonzero_byte_has_set_bit(b: u8) -> (t: u8)
    requires
        b != 0,
    ensures
        t < 8,
        (b >> t) & 1u8 == 1u8,
{
    assert(b != 0 ==> ((b >> 0u8) & 1u8 == 1u8 || (b >> 1u8) & 1u8 == 1u8 || (b >> 2u8) & 1u8 == 1u8
        || (b >> 3u8) & 1u8 == 1u8 || (b >> 4u8) & 1u8 == 1u8 || (b >> 5u8) & 1u8 == 1u8
        || (b >> 6u8) & 1u8 == 1u8 || (b >> 7u8) & 1u8 == 1u8)) by (bit_vector);
    if (b >> 0u8) & 1u8 == 1u8 {
        0u8
    } else if (b >> 1u8) & 1u8 == 1u8 {
        1u8
    } else if (b >> 2u8) & 1u8 == 1u8 {
        2u8
    } else if (b >> 3u8) & 1u8 == 1u8 {
        3u8
    } else if (b >> 4u8) & 1u8 == 1u8 {
        4u8
    } else if (b >> 5u8) & 1u8 == 1u8 {
        5u8
    } else if (b >> 6u8) & 1u8 == 1u8 {
        6u8
    } else {
        7u8
    }
}

/// A byte that meets the mask `0xff << s` has a set bit at a position `>= s`.
proof fn lemma_masked_byte_has_set_bit(b: u8, s: u8) -> (t: u8)
    requires
        1 <= s <= 7,
        b & (0xffu8 << s) != 0,
    ensures
        s <= t < 8,
        (b >> t) & 1u8 == 1u8,
{
    assert(1u8 <= s && s <= 7u8 && b & (0xffu8 << s) != 0 ==> (
        (s <= 1u8 && (b >> 1u8) & 1u8 == 1u8) || (s <= 2u8 && (b >> 2u8) & 1u8 == 1u8)
        || (s <= 3u8 && (b >> 3u8) & 1u8 == 1u8) || (s <= 4u8 && (b >> 4u8) & 1u8 == 1u8)
        || (s <= 5u8 && (b >> 5u8) & 1u8 == 1u8) || (s <= 6u8 && (b >> 6u8) & 1u8 == 1u8)
        || (s <= 7u8 && (b >> 7u8) & 1u8 == 1u8))) by (bit_vector);
    if s <= 1u8 && (b >> 1u8) & 1u8 == 1u8 {
        1u8
    } else if s <= 2u8 && (b >> 2u8) & 1u8 == 1u8 {
        2u8
    } else if s <= 3u8 && (b >> 3u8) & 1u8 == 1u8 {
        3u8
    } else if s <= 4u8 && (b >> 4u8) & 1u8 == 1u8 {
        4u8
    } else if s <= 5u8 && (b >> 5u8) & 1u8 == 1u8 {
        5u8
    } else if s <= 6u8 && (b >> 6u8) & 1u8 == 1u8 {
        6u8
    } else {
        7u8
    }
}

/// Returns `true` if the first `required_zero_bits` bits of `hash` are all 0.
///
/// Works on raw bytes; bytes past the end of `hash` count as `0xff`, so a hash
/// too short to hold the required bits fails.
pub fn meets_difficulty(hash: &soroban_sdk::Bytes, required_zero_bits: u32) -> (r: bool)
    ensures
        r == leading_bits_zero(bytes_contents(*hash), required_zero_bits as int),
{
    let ghost h = bytes_contents(*hash);
    let ghost n = required_zero_bits as int;
    if required_zero_bits == 0 {
        return true;
    }
    let full_zero_bytes = (required_zero_bits / 8) as usize;
    let remaining_bits: u32 = required_zero_bits % 8;
    assert(n == 8 * (full_zero_bytes as int) + remaining_bits as int);

    // Check completely-zero bytes
    let mut i: usize = 0;
    while i < full_zero_bytes
        invariant
            i <= full_zero_bytes,
            full_zero_bytes == required_zero_bits / 8,
            h == bytes_contents(*hash),
            n == required_zero_bits as int,
            8 * full_zero_bytes <= n,
            leading_bits_zero(h, 8 * i),
        decreases full_zero_bytes - i,
    {
        let byte = bytes_get(hash, i as u32).unwrap_or(0xff);
        if byte != 0 {
            proof {
                if i >= h.len() {
                    let j = 8 * i as int;
                    lemma_byte_position(j, i as int);
                    assert(0 <= j < n);
                    assert(!(j / 8 < h.len()));
                    if leading_bits_zero(h, n) {
                        assert(zero_bit_at(h, j));
                    }
                } else {
                    let t = lemma_nonzero_byte_has_set_bit(byte);
                    let j = 8 * i + 7 - t;
                    lemma_byte_position(j, i as int);
                    assert(hash_bit(h, j) == 1u8);
                    assert(!zero_bit_at(h, j));
                    assert(0 <= j < n);
                    assert(!leading_bits_zero(h, n));
                }
            }
            return false;
        }
        proof {
            assert forall|j: int| 0 <= j < 8 * (i + 1) implies #[trigger] zero_bit_at(h, j) by {
                if j >= 8 * i {
                    lemma_byte_position(j, i as int);
                    let t = (7 - j % 8) as u8;
                    assert((0u8 >> t) & 1u8 == 0u8) by (bit_vector);
                }
            }
        }
        i += 1;
    }

    // Check the partially-zero byte (high bits must be 0)
    if remaining_bits > 0 {
        let shift: u8 = (8 - remaining_bits) as u8;
        let mask: u8 = 0xffu8 << shift;  // top `remaining_bits` bits set
        let byte = bytes_get(hash, full_zero_bytes as u32).unwrap_or(0xff);
        if byte & mask != 0 {
            proof {
                let f = full_zero_bytes as int;
                if f >= h.len() {
                    lemma_byte_position(8 * f, f);
                    assert(0 <= 8 * f < n);
                    assert(!(8 * f / 8 < h.len()));
                    if leading_bits_zero(h, n) {
                        assert(zero_bit_at(h, 8 * f));
                    }
                } else {
                    let t = lemma_masked_byte_has_set_bit(byte, shift);
                    let j = 8 * f + 7 - t;
                    lemma_byte_position(j, f);
                    assert(hash_bit(h, j) == 1u8);
                    assert(!zero_bit_at(h, j));
                    assert(0 <= j < n);
                    assert(!leading_bits_zero(h, n));
                }
            }
            return false;
        }
        proof {
            let f = full_zero_bytes as int;
            if f >= h.len() {
                assert(0xffu8 & (0xffu8 << shift) != 0u8) by (bit_vector)
                    requires
                        1u8 <= shift <= 7u8,
                ;
            }
            assert forall|j: int| 0 <= j < n implies #[trigger] zero_bit_at(h, j) by {
                if j >= 8 * f {
                    lemma_byte_position(j, f);
                    let t = (7 - j % 8) as u8;
                    assert(1u8 <= shift <= 7u8 && shift <= t && t < 8u8 && byte & (0xffu8 << shift) == 0u8
                        ==> (byte >> t) & 1u8 == 0u8) by (bit_vector);
                }
            }
        }
    }
    true
}

/// With no difficulty, every hash passes.
pub proof fn lemma_zero_difficulty_always_met(hash: Seq<u8>)
    ensures
        leading_bits_zero(hash, 0),
{
}

/// A hash that meets a difficulty meets every lower difficulty.
pub proof fn lemma_difficulty_monotone(hash: Seq<u8>, higher: int, lower: int)
    requires
        0 <= lower <= higher,
        leading_bits_zero(hash, higher),
    ensures
        leading_bits_zero(hash, lower),
{
    assert forall|j: int| 0 <= j < lower implies #[trigger] zero_bit_at(hash, j) by {
        assert(0 <= j < higher);
    }
}

/// A hash made of zero bytes meets every difficulty up to its length in bits.
pub proof fn lemma_zero_hash_meets_difficulty(hash: Seq<u8>, n: int)
    requires
        forall|i: int| 0 <= i < hash.len() ==> hash[i] == 0u8,
        0 <= n <= 8 * hash.len(),
    ensures
        leading_bits_zero(hash, n),
{
    assert forall|j: int| 0 <= j < n implies #[trigger] zero_bit_at(hash, j) by {
        let t = (7 - j % 8) as u8;
        assert(hash[j / 8] == 0u8);
        assert((0u8 >> t) & 1u8 == 0u8) by (bit_vector);
    }
}

/// A nonce is accepted at most once: after a proof with `nonce` has been
/// accepted, every later proof with the same nonce is refused, and one whose
/// hash is valid is refused as a reused nonce.
pub proof fn lemma_nonce_accepted_once(first_hash: Seq<u8>, later_hash: Seq<u8>, nonce: u64, used: Map<u64, bool>)
    requires
        proof_outcome(first_hash, nonce, used).0 is Ok,
    ensures
        proof_outcome(later_hash, nonce, proof_outcome(first_hash, nonce, used).1).0 is Err,
        later_hash.len() != 0 && leading_bits_zero(later_hash, POW_LEADING_ZERO_BITS as int) ==> proof_outcome(
            later_hash,
            nonce,
            proof_outcome(first_hash, nonce, used).1,
        ).0 == Err::<(), SpamError>(SpamError::NonceReused),
{
}

/// Accepting a proof records only its own nonce: the verdict on a proof with
/// another nonce is the same before and after.
pub proof fn lemma_other_nonces_unaffected(
    first_hash: Seq<u8>,
    first_nonce: u64,
    later_hash: Seq<u8>,
    later_nonce: u64,
    used: Map<u64, bool>,
)
    requires
        first_nonce != later_nonce,
    ensures
        proof_outcome(later_hash, later_nonce, proof_outcome(first_hash, first_nonce, used).1).0
            == proof_outcome(later_hash, later_nonce, used).0,
{
}

/// A refused proof records nothing.
pub proof fn lemma_refusal_records_nothing(hash: Seq<u8>, nonce: u64, used: Map<u64, bool>)
    requires
        proof_outcome(hash, nonce, used).0 is Err,
    ensures
        proof_outcome(hash, nonce, used).1 == used,
{
}

/// The used-nonce entries after the first `k` proofs of `proofs` (hash
/// bytes, nonce) have been checked in order, starting from `used`.
pub open spec fn used_after(used: Map<u64, bool>, proofs: Seq<(Seq<u8>, u64)>, k: int) -> Map<u64, bool>
    decreases k,
{
    if k <= 0 {
        used
    } else {
        proof_outcome(proofs[k - 1].0, proofs[k - 1].1, used_after(used, proofs, k - 1)).1
    }
}

/// The verdict on proof `k` of `proofs` when they are checked in order,
/// starting from `used`.
pub open spec fn verdict_at(used: Map<u64, bool>, proofs: Seq<(Seq<u8>, u64)>, k: int) -> Result<(), SpamError> {
    proof_outcome(proofs[k].0, proofs[k].1, used_after(used, proofs, k)).0
}

/// A recorded nonce stays recorded.
proof fn lemma_used_nonces_stay(used: Map<u64, bool>, proofs: Seq<(Seq<u8>, u64)>, i: int, j: int, nonce: u64)
    requires
        0 <= i <= j,
        used_after(used, proofs, i).dom().contains(nonce),
    ensures
        used_after(used, proofs, j).dom().contains(nonce),
    decreases j - i,
{
    if j > i {
        lemma_used_nonces_stay(used, proofs, i, j - 1, nonce);
    }
}

/// Replay protection over any sequence of checks against the same used-nonce
/// entries: once a proof with a nonce has been accepted, every later proof
/// with that nonce is refused (as a reused nonce when its hash is valid), so
/// each nonce is accepted at most once.
pub proof fn lemma_nonce_accepted_at_most_once(used: Map<u64, bool>, proofs: Seq<(Seq<u8>, u64)>, i: int, j: int)
    requires
        0 <= i < j < proofs.len(),
        proofs[i].1 == proofs[j].1,
        verdict_at(used, proofs, i) is Ok,
    ensures
        verdict_at(used, proofs, j) is Err,
        proofs[j].0.len() != 0 && leading_bits_zero(proofs[j].0, POW_LEADING_ZERO_BITS as int) ==> verdict_at(
            used,
            proofs,
            j,
        ) == Err::<(), SpamError>(SpamError::NonceReused),
{
    assert(used_after(used, proofs, i + 1).dom().contains(proofs[i].1));
    lemma_used_nonces_stay(used, proofs, i + 1, j, proofs[i].1);
}

// ─── What the check does, case by case ────────────────────────────────────────

/// The required difficulty is 16 leading zero bits.
pub proof fn rule_difficulty_is_sixteen_bits()
    ensures
        POW_LEADING_ZERO_BITS == 16,
{
}

/// A proof with an empty hash is refused as `MissingProof` and records
/// nothing, whatever its nonce.
pub proof fn rule_empty_hash_refused(hash: Seq<u8>, nonce: u64, used: Map<u64, bool>)
    requires
        hash.len() == 0,
    ensures
        proof_outcome(hash, nonce, used) == (Err::<(), SpamError>(SpamError::MissingProof), used),
{
}

/// A proof whose hash is non-empty but does not begin with 16 zero bits is
/// refused as `InvalidProof` and records nothing, whatever its nonce.
pub proof fn rule_weak_hash_refused(hash: Seq<u8>, nonce: u64, used: Map<u64, bool>)
    requires
        hash.len() != 0,
        !leading_bits_zero(hash, 16),
    ensures
        proof_outcome(hash, nonce, used) == (Err::<(), SpamError>(SpamError::InvalidProof), used),
{
}

/// A proof with a valid hash (non-empty, 16 leading zero bits) and a nonce
/// already used is refused as `NonceReused` and records nothing.
pub proof fn rule_used_nonce_refused(hash: Seq<u8>, nonce: u64, used: Map<u64, bool>)
    requires
        hash.len() != 0,
        leading_bits_zero(hash, 16),
        used.dom().contains(nonce),
    ensures
        proof_outcome(hash, nonce, used) == (Err::<(), SpamError>(SpamError::NonceReused), used),
{
}

/// A proof with a valid hash (non-empty, 16 leading zero bits) and an unused
/// nonce is accepted, and exactly that nonce is recorded (as `true`); nothing
/// else about the hash matters.
pub proof fn rule_valid_proof_accepted(hash: Seq<u8>, nonce: u64, used: Map<u64, bool>)
    requires
        hash.len() != 0,
        leading_bits_zero(hash, 16),
        !used.dom().contains(nonce),
    ensures
        proof_outcome(hash, nonce, used) == (Ok::<(), SpamError>(()), used.insert(nonce, true)),
{
}

/// A whole number of leading zero bytes: the first `8 * k` bits are zero
/// exactly when the hash has at least `k` bytes and its first `k` bytes are 0.
pub proof fn rule_leading_zero_bytes(hash: Seq<u8>, k: int)
    requires
        0 <= k,
    ensures
        leading_bits_zero(hash, 8 * k) <==> (k <= hash.len() && forall|i: int| 0 <= i < k ==> hash[i] == 0u8),
{
    if leading_bits_zero(hash, 8 * k) {
        if k > 0 {
            lemma_byte_position(8 * (k - 1), k - 1);
            assert(zero_bit_at(hash, 8 * (k - 1)));
        }
        assert forall|i: int| 0 <= i < k implies hash[i] == 0u8 by {
            if hash[i] != 0u8 {
                let t = lemma_nonzero_byte_has_set_bit(hash[i]);
                let j = 8 * i + 7 - t;
                lemma_byte_position(j, i);
                assert(hash_bit(hash, j) == 1u8);
                assert(zero_bit_at(hash, j));
            }
        }
    }
    if k <= hash.len() && forall|i: int| 0 <= i < k ==> hash[i] == 0u8 {
        assert forall|j: int| 0 <= j < 8 * k implies #[trigger] zero_bit_at(hash, j) by {
            let i = j / 8;
            lemma_byte_position(j, i);
            assert(hash[i] == 0u8);
            let t = (7 - j % 8) as u8;
            assert((0u8 >> t) & 1u8 == 0u8) by (bit_vector);
        }
    }
}

/// The required difficulty in bytes: a hash begins with 16 zero bits exactly
/// when it has at least two bytes and both are 0.
pub proof fn rule_sixteen_zero_bits(hash: Seq<u8>)
    ensures
        leading_bits_zero(hash, 16) <==> (hash.len() >= 2 && hash[0] == 0u8 && hash[1] == 0u8),
{
    rule_leading_zero_bytes(hash, 2);
    if hash.len() >= 2 && hash[0] == 0u8 && hash[1] == 0u8 {
        assert(forall|i: int| 0 <= i < 2 ==> hash[i] == 0u8);
    }
}

/// A partial byte: the first `8 * k + r` bits (`1 <= r <= 7`) are zero exactly
/// when the first `k` bytes are 0 and byte `k` exists and has its top `r` bits
/// clear, i.e. is below `2^(8 - r)`.
pub proof fn rule_leading_zero_bits_partial(hash: Seq<u8>, k: int, r: int)
    requires
        0 <= k,
        1 <= r <= 7,
    ensures
        leading_bits_zero(hash, 8 * k + r) <==> (k < hash.len() && (forall|i: int| 0 <= i < k ==> hash[i] == 0u8)
            && hash[k] >> ((8 - r) as u8) == 0u8),
{
    let s = (8 - r) as u8;
    rule_leading_zero_bytes(hash, k);
    if leading_bits_zero(hash, 8 * k + r) {
        lemma_difficulty_monotone(hash, 8 * k + r, 8 * k);
        lemma_byte_position(8 * k, k);
        assert(zero_bit_at(hash, 8 * k));
        let b = hash[k];
        if b >> s != 0u8 {
            assert(b >> s != 0u8 ==> b & (0xffu8 << s) != 0u8) by (bit_vector);
            let t = lemma_masked_byte_has_set_bit(b, s);
            let j = 8 * k + 7 - t;
            lemma_byte_position(j, k);
            assert(hash_bit(hash, j) == 1u8);
            assert(zero_bit_at(hash, j));
        }
    }
    if k < hash.len() && (forall|i: int| 0 <= i < k ==> hash[i] == 0u8) && hash[k] >> s == 0u8 {
        let b = hash[k];
        assert forall|j: int| 0 <= j < 8 * k + r implies #[trigger] zero_bit_at(hash, j) by {
            let i = j / 8;
            let t = (7 - j % 8) as u8;
            if j < 8 * k {
                lemma_byte_position(j, i);
                assert(hash[i] == 0u8);
                assert((0u8 >> t) & 1u8 == 0u8) by (bit_vector);
            } else {
                lemma_byte_position(j, k);
                assert(1u8 <= s <= 7u8 && s <= t && t < 8u8 && b >> s == 0u8 ==> (b >> t) & 1u8 == 0u8) by (bit_vector);
            }
        }
    }
}

} // verus!
