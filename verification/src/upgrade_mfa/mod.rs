//! Two-step (admin, then backup key) approval of sensitive upgrades.
//!
//! The admin proposes an upgrade; the backup key must confirm it within
//! [`logic::SECOND_SIG_WINDOW_SECS`] seconds or the proposal expires.

pub mod history;
pub mod laws;
pub mod logic;
pub mod rules;
pub mod storage;
pub mod types;

pub use storage::MfaStorage;
pub use types::{AccountAddress, UpgradeMfaError, UpgradePendingState};
