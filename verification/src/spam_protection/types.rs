use vstd::prelude::*;

verus! {

/// Why a guild-initialisation proof was refused.
///
/// The contract reports these as error codes 1, 2 and 3, in the order below.
#[derive(Copy, Clone, Debug, PartialEq, Eq, Structural, PartialOrd, Ord)]
pub enum SpamError {
    /// The proof's hash is empty.
    MissingProof,
    /// The proof's hash does not begin with the required number of zero bits.
    InvalidProof,
    /// The proof's nonce has been used before.
    NonceReused,
}

/// Proof-of-work token submitted alongside guild initialisation.
///
/// `hash` is a SHA-256 hash of `(sender address bytes || nonce bytes)`, mined
/// off-chain so that it begins with enough zero bits. The contract does not
/// recompute the hash: it checks the difficulty and that the nonce is fresh.
pub struct InitializerProof {
    /// SHA-256(address bytes || nonce) produced off-chain.
    pub hash: soroban_sdk::Bytes,
    /// Counter chosen by the miner; recorded on-chain to prevent reuse.
    pub nonce: u64,
}

} // verus!
