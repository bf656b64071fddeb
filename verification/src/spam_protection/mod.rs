//! Anti-spam proof-of-work gate for guild initialisation.
//!
//! [`verification::verify_proof`] rejects bot-driven floods of guild creation:
//! a proof must be present, its hash must begin with enough zero bits, and its
//! nonce must not have been used before.

pub mod types;
pub mod verification;

pub use types::{InitializerProof, SpamError};
pub use verification::verify_proof;
