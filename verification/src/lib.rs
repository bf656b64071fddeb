//! Anti-spam proof-of-work gate and two-signature upgrade approval for a
//! Stellar guild contract, with the decisions proved against their contracts.
//!
//! The ledger storage, the ledger clock and address authorisation belong to the
//! host environment; callers read them, hand the values to the functions here
//! and write back what these functions return.

pub mod sdk;
pub mod spam_protection;
pub mod upgrade_mfa;
