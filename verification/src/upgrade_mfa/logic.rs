use vstd::prelude::*;

use crate::upgrade_mfa::storage::{
    self, MfaStorage, StorageView, cleared_pending, proposal_option_view, stored_pending, with_admin,
    with_backup_key,
};
use crate::upgrade_mfa::types::{AccountAddress, ProposalView, UpgradeMfaError, UpgradePendingState};

verus! {

/// How long (in seconds) the second signature window stays open after the first.
/// Default: 1 hour.
pub const SECOND_SIG_WINDOW_SECS: u64 = 3_600;

// ─── What each step decides ───────────────────────────────────────────────────

/// The storage after `initialize_mfa`.
pub open spec fn initialized(s: StorageView, admin: Seq<char>, backup_key: Seq<char>) -> StorageView {
    with_backup_key(with_admin(s, admin), backup_key)
}

/// A proposal is open at time `now`: the flag is raised, a proposal is
/// recorded, and its window has not closed.
pub open spec fn proposal_open(s: StorageView, now: u64) -> bool {
    s.pending_flag && s.pending.is_some() && now <= s.pending.unwrap().expires_at
}

/// The first signature by `caller` at time `now` gets as far as recording a
/// new proposal.
pub open spec fn first_signature_records(s: StorageView, caller: Seq<char>, now: u64) -> bool {
    &&& s.admin == Some(caller)
    &&& !proposal_open(s, now)
}

/// What `upgrade_first_signature` returns, and the storage afterwards.
pub open spec fn first_signature_outcome(s: StorageView, caller: Seq<char>, description: Seq<u8>, now: u64) -> (
    Result<(), UpgradeMfaError>,
    StorageView,
) {
    if s.admin.is_none() {
        (Err(UpgradeMfaError::NotInitialized), s)
    } else if s.admin != Some(caller) {
        (Err(UpgradeMfaError::NotAdmin), s)
    } else if proposal_open(s, now) {
        (Err(UpgradeMfaError::AlreadyPending), s)
    } else {
        (
            Ok(()),
            stored_pending(
                s,
                ProposalView {
                    proposed_by: caller,
                    expires_at: (now + SECOND_SIG_WINDOW_SECS) as u64,
                    description,
                },
            ),
        )
    }
}

/// What `upgrade_second_signature` returns, and the storage afterwards.
pub open spec fn second_signature_outcome(s: StorageView, caller: Seq<char>, now: u64) -> (
    Result<ProposalView, UpgradeMfaError>,
    StorageView,
) {
    if s.backup_key.is_none() {
        (Err(UpgradeMfaError::NotInitialized), s)
    } else if s.backup_key != Some(caller) {
        (Err(UpgradeMfaError::NotBackupKey), s)
    } else if s.pending.is_none() {
        (Err(UpgradeMfaError::NoPendingUpgrade), s)
    } else if now > s.pending.unwrap().expires_at {
        (Err(UpgradeMfaError::UpgradeExpired), cleared_pending(s))
    } else {
        (Ok(s.pending.unwrap()), cleared_pending(s))
    }
}

/// What `is_upgrade_pending` returns, and the storage afterwards.
pub open spec fn upgrade_pending_outcome(s: StorageView, now: u64) -> (bool, StorageView) {
    if !s.pending_flag {
        (false, s)
    } else if s.pending.is_some() && now > s.pending.unwrap().expires_at {
        (false, cleared_pending(s))
    } else {
        (true, s)
    }
}

/// What `get_pending_upgrade` returns, and the storage afterwards.
pub open spec fn pending_upgrade_outcome(s: StorageView, now: u64) -> (Option<ProposalView>, StorageView) {
    if s.pending.is_none() {
        (None, s)
    } else if now > s.pending.unwrap().expires_at {
        (None, cleared_pending(s))
    } else {
        (Some(s.pending.unwrap()), s)
    }
}

/// A result carrying a proposal, as plain values.
pub open spec fn proposal_result_view(r: Result<UpgradePendingState, UpgradeMfaError>) -> Result<
    ProposalView,
    UpgradeMfaError,
> {
    match r {
        Ok(p) => Ok(p@),
        Err(e) => Err(e),
    }
}

// ─── Setup ────────────────────────────────────────────────────────────────────

/// Register the primary admin and the backup signing key.
///
/// Both addresses must have authorised the call; callers check that before.
pub fn initialize_mfa(store: &mut MfaStorage, admin: &AccountAddress, backup_key: &AccountAddress)
    ensures
        final(store)@ == initialized(old(store)@, admin@, backup_key@),
{
    storage::set_admin(store, admin);
    storage::set_backup_key(store, backup_key);
}

// ─── Step 1: Admin proposes upgrade ──────────────────────────────────────────

/// Record the first signature for a sensitive upgrade action, at ledger time
/// `now`.
///
/// Raises the pending flag and records the proposal, which the backup key must
/// confirm within [`SECOND_SIG_WINDOW_SECS`] seconds. A proposal whose window
/// has closed does not block a new one.
///
/// # Errors
/// - [`UpgradeMfaError::NotInitialized`]: no admin is registered.
/// - [`UpgradeMfaError::NotAdmin`]: `caller` is not the registered admin.
/// - [`UpgradeMfaError::AlreadyPending`]: a previous proposal is still open.
///
/// On an error the storage is left as it was. `caller` must have authorised
/// the call; callers check that before.
pub fn upgrade_first_signature(
    store: &mut MfaStorage,
    caller: &AccountAddress,
    description: Vec<u8>,
    now: u64,
) -> (r: Result<(), UpgradeMfaError>)
    requires
        first_signature_records(old(store)@, caller@, now) ==> now + SECOND_SIG_WINDOW_SECS <= u64::MAX,
    ensures
        (r, final(store)@) == first_signature_outcome(old(store)@, caller@, description@, now),
{
    let admin = match storage::get_admin(store) {
        Some(a) => a,
        None => return Err(UpgradeMfaError::NotInitialized),
    };
    if !caller.same_as(&admin) {
        return Err(UpgradeMfaError::NotAdmin);
    }

    if storage::is_pending(store) {
        // Lazily check expiry before rejecting: if the previous proposal
        // has already expired a fresh one may be created.
        if let Some(pending) = storage::get_pending(store) {
            if now <= pending.expires_at {
                return Err(UpgradeMfaError::AlreadyPending);
            }
            // Expired: clear and proceed.
            storage::clear_pending(store);
        }
    }

    let expires_at = now + SECOND_SIG_WINDOW_SECS;
    let state = UpgradePendingState { proposed_by: caller.copy(), expires_at, description };
    storage::store_pending(store, &state);
    Ok(())
}

// ─── Step 2: Backup key confirms upgrade ─────────────────────────────────────

/// Provide the second (backup-key) signature to complete a pending upgrade,
/// at ledger time `now`.
///
/// Returns the approved proposal if it is still within its window. Clears the
/// proposal either way once it has been looked at (approved or expired).
///
/// # Errors
/// - [`UpgradeMfaError::NotInitialized`]: no backup key is registered.
/// - [`UpgradeMfaError::NotBackupKey`]: `caller` is not the registered backup key.
/// - [`UpgradeMfaError::NoPendingUpgrade`]: no proposal is recorded.
/// - [`UpgradeMfaError::UpgradeExpired`]: the proposal's window has closed.
///
/// On every error but `UpgradeExpired` the storage is left as it was.
/// `caller` must have authorised the call; callers check that before.
pub fn upgrade_second_signature(store: &mut MfaStorage, caller: &AccountAddress, now: u64) -> (r: Result<
    UpgradePendingState,
    UpgradeMfaError,
>)
    ensures
        (proposal_result_view(r), final(store)@) == second_signature_outcome(old(store)@, caller@, now),
{
    let backup = match storage::get_backup_key(store) {
        Some(b) => b,
        None => return Err(UpgradeMfaError::NotInitialized),
    };
    if !caller.same_as(&backup) {
        return Err(UpgradeMfaError::NotBackupKey);
    }

    let pending = match storage::get_pending(store) {
        Some(p) => p,
        None => return Err(UpgradeMfaError::NoPendingUpgrade),
    };

    // Time-window check: clear regardless so expired proposals are removed.
    if now > pending.expires_at {
        storage::clear_pending(store);
        return Err(UpgradeMfaError::UpgradeExpired);
    }

    // Both signatures collected: clear the pending flag and return the approved state.
    storage::clear_pending(store);
    Ok(pending)
}

// ─── Query ────────────────────────────────────────────────────────────────────

/// Whether an upgrade is currently pending a second signature at ledger time
/// `now`. A proposal found expired is cleared.
pub fn is_upgrade_pending(store: &mut MfaStorage, now: u64) -> (r: bool)
    ensures
        (r, final(store)@) == upgrade_pending_outcome(old(store)@, now),
{
    if !storage::is_pending(store) {
        return false;
    }
    // Lazily expire
    if let Some(pending) = storage::get_pending(store) {
        if now > pending.expires_at {
            storage::clear_pending(store);
            return false;
        }
    }
    true
}

/// The pending upgrade proposal if one is recorded and not expired at ledger
/// time `now`. A proposal found expired is cleared.
pub fn get_pending_upgrade(store: &mut MfaStorage, now: u64) -> (r: Option<UpgradePendingState>)
    ensures
        (proposal_option_view(r), final(store)@) == pending_upgrade_outcome(old(store)@, now),
{
    let pending = match storage::get_pending(store) {
        Some(p) => p,
        None => return None,
    };
    if now > pending.expires_at {
        storage::clear_pending(store);
        return None;
    }
    Some(pending)
}

} // verus!
