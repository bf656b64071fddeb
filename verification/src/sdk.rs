//! The host byte strings and maps that the proof-of-work gate reads: their
//! contents as sequences and maps, and the four host calls made on them.

use vstd::prelude::*;

verus! {

/// `soroban_sdk::Bytes`: a byte string held by the host.
#[verifier::external_type_specification]
#[verifier::external_body]
pub struct ExBytes(soroban_sdk::Bytes);

/// `soroban_sdk::Map`: an ordered key-value map held by the host.
#[verifier::external_type_specification]
#[verifier::external_body]
#[verifier::reject_recursive_types(K)]
#[verifier::reject_recursive_types(V)]
pub struct ExMap<K, V>(soroban_sdk::Map<K, V>);

/// The bytes that a `soroban_sdk::Bytes` holds, in order.
pub uninterp spec fn bytes_contents(b: soroban_sdk::Bytes) -> Seq<u8>;

/// The entries that a `soroban_sdk::Map<u64, bool>` holds.
pub uninterp spec fn nonce_map_contents(m: soroban_sdk::Map<u64, bool>) -> Map<u64, bool>;

/// Calls `soroban_sdk::Bytes::is_empty`, which the crate defines as
/// `self.len() == 0`: true exactly when the byte string holds no byte.
/// Not stated: the host may abort any call when its metering budget runs out.
#[verifier::external_body]
pub(crate) fn bytes_is_empty(b: &soroban_sdk::Bytes) -> (r: bool)
    ensures
        r == (bytes_contents(*b).len() == 0),
{
    b.is_empty()
}

/// Calls `soroban_sdk::Bytes::get`, which returns `Some` of the byte at
/// position `i` when `i < len()` and `None` otherwise.
/// Not stated: the host may abort any call when its metering budget runs out.
#[verifier::external_body]
pub(crate) fn bytes_get(b: &soroban_sdk::Bytes, i: u32) -> (r: Option<u8>)
    ensures
        r == (if i < bytes_contents(*b).len() {
            Some(bytes_contents(*b)[i as int])
        } else {
            None::<u8>
        }),
{
    b.get(i)
}

/// Calls `soroban_sdk::Map::contains_key` (the host's `map_has`): true exactly
/// when the map holds an entry for `k`.
/// Not stated: the host may abort any call when its metering budget runs out.
#[verifier::external_body]
pub(crate) fn nonce_map_contains_key(m: &soroban_sdk::Map<u64, bool>, k: u64) -> (r: bool)
    ensures
        r == nonce_map_contents(*m).dom().contains(k),
{
    m.contains_key(k)
}

/// Calls `soroban_sdk::Map::set` (the host's `map_put`): afterwards the map
/// holds `v` under `k`, and every other entry as before.
/// Not stated: the host may abort any call when its metering budget runs out.
#[verifier::external_body]
pub(crate) fn nonce_map_set(m: &mut soroban_sdk::Map<u64, bool>, k: u64, v: bool)
    ensures
        nonce_map_contents(*final(m)) == nonce_map_contents(*old(m)).insert(k, v),
{
    m.set(k, v)
}

} // verus!
