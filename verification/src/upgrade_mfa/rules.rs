//! What each step of the upgrade flow does, case by case, stated directly over
//! the storage entries it reads and the result it gives.

use vstd::prelude::*;

use crate::upgrade_mfa::logic::{
    SECOND_SIG_WINDOW_SECS, first_signature_outcome, initialized, pending_upgrade_outcome, second_signature_outcome,
    upgrade_pending_outcome,
};
use crate::upgrade_mfa::storage::{StorageView, cleared_pending, stored_pending, with_admin, with_backup_key};
use crate::upgrade_mfa::types::{ProposalView, UpgradeMfaError};

verus! {

/// `t` is the storage `s` with the proposal removed and the flag lowered,
/// the admin and the backup key untouched.
pub open spec fn is_cleared_from(t: StorageView, s: StorageView) -> bool {
    &&& t.pending.is_none()
    &&& !t.pending_flag
    &&& t.admin == s.admin
    &&& t.backup_key == s.backup_key
}

/// The confirmation window is one hour.
pub proof fn rule_window_is_one_hour()
    ensures
        SECOND_SIG_WINDOW_SECS == 3600,
{
}

// ─── Storage writes ───────────────────────────────────────────────────────────

/// Each storage write changes exactly its own entries.
pub proof fn rule_storage_writes(s: StorageView, a: Seq<char>, b: Seq<char>, p: ProposalView)
    ensures
        with_admin(s, a) == (StorageView { admin: Some(a), ..s }),
        with_backup_key(s, b) == (StorageView { backup_key: Some(b), ..s }),
        stored_pending(s, p) == (StorageView { pending: Some(p), pending_flag: true, ..s }),
        is_cleared_from(cleared_pending(s), s),
        initialized(s, a, b) == (StorageView { admin: Some(a), backup_key: Some(b), ..s }),
{
}

// ─── First signature ──────────────────────────────────────────────────────────

/// Without a registered admin the first signature is refused as
/// `NotInitialized` and changes nothing.
pub proof fn rule_first_signature_needs_admin(s: StorageView, caller: Seq<char>, description: Seq<u8>, now: u64)
    requires
        s.admin.is_none(),
    ensures
        first_signature_outcome(s, caller, description, now) == (
            Err::<(), UpgradeMfaError>(UpgradeMfaError::NotInitialized),
            s,
        ),
{
}

/// A first signature by anyone but the registered admin is refused as
/// `NotAdmin` and changes nothing.
pub proof fn rule_first_signature_only_admin(s: StorageView, caller: Seq<char>, description: Seq<u8>, now: u64)
    requires
        s.admin.is_some(),
        s.admin != Some(caller),
    ensures
        first_signature_outcome(s, caller, description, now) == (
            Err::<(), UpgradeMfaError>(UpgradeMfaError::NotAdmin),
            s,
        ),
{
}

/// While a recorded proposal is open (flag raised, `now` at or before its
/// expiry), the admin's first signature is refused as `AlreadyPending` and
/// changes nothing, whoever made the open proposal.
pub proof fn rule_first_signature_refused_while_open(
    s: StorageView,
    caller: Seq<char>,
    description: Seq<u8>,
    now: u64,
)
    requires
        s.admin == Some(caller),
        s.pending_flag,
        s.pending.is_some(),
        now <= s.pending.unwrap().expires_at,
    ensures
        first_signature_outcome(s, caller, description, now) == (
            Err::<(), UpgradeMfaError>(UpgradeMfaError::AlreadyPending),
            s,
        ),
{
}

/// When no proposal is open (flag lowered, none recorded, or the recorded
/// one expired before `now`), the admin's first signature is accepted and
/// records a proposal by the caller with the given description, expiring one
/// hour (3600 s) after `now`, with the flag raised; the signers are untouched.
pub proof fn rule_first_signature_records(s: StorageView, caller: Seq<char>, description: Seq<u8>, now: u64)
    requires
        s.admin == Some(caller),
        !s.pending_flag || s.pending.is_none() || now > s.pending.unwrap().expires_at,
        now + 3600 <= u64::MAX,
    ensures
        first_signature_outcome(s, caller, description, now).0 == Ok::<(), UpgradeMfaError>(()),
        first_signature_outcome(s, caller, description, now).1 == (StorageView {
            pending: Some(ProposalView { proposed_by: caller, expires_at: (now + 3600) as u64, description }),
            pending_flag: true,
            ..s
        }),
{
}

// ─── Second signature ─────────────────────────────────────────────────────────

/// Without a registered backup key the second signature is refused as
/// `NotInitialized` and changes nothing.
pub proof fn rule_second_signature_needs_backup_key(s: StorageView, caller: Seq<char>, now: u64)
    requires
        s.backup_key.is_none(),
    ensures
        second_signature_outcome(s, caller, now) == (
            Err::<ProposalView, UpgradeMfaError>(UpgradeMfaError::NotInitialized),
            s,
        ),
{
}

/// A second signature by anyone but the registered backup key is refused as
/// `NotBackupKey` and changes nothing.
pub proof fn rule_second_signature_only_backup_key(s: StorageView, caller: Seq<char>, now: u64)
    requires
        s.backup_key.is_some(),
        s.backup_key != Some(caller),
    ensures
        second_signature_outcome(s, caller, now) == (
            Err::<ProposalView, UpgradeMfaError>(UpgradeMfaError::NotBackupKey),
            s,
        ),
{
}

/// The backup key's signature with no proposal recorded is refused as
/// `NoPendingUpgrade` and changes nothing, whatever the flag says.
pub proof fn rule_second_signature_needs_proposal(s: StorageView, caller: Seq<char>, now: u64)
    requires
        s.backup_key == Some(caller),
        s.pending.is_none(),
    ensures
        second_signature_outcome(s, caller, now) == (
            Err::<ProposalView, UpgradeMfaError>(UpgradeMfaError::NoPendingUpgrade),
            s,
        ),
{
}

/// The backup key's signature after the recorded proposal expired is refused
/// as `UpgradeExpired` and clears the proposal.
pub proof fn rule_second_signature_after_expiry(s: StorageView, caller: Seq<char>, now: u64)
    requires
        s.backup_key == Some(caller),
        s.pending.is_some(),
        now > s.pending.unwrap().expires_at,
    ensures
        second_signature_outcome(s, caller, now).0 == Err::<ProposalView, UpgradeMfaError>(
            UpgradeMfaError::UpgradeExpired,
        ),
        is_cleared_from(second_signature_outcome(s, caller, now).1, s),
{
}

/// The backup key's signature at or before the recorded proposal's expiry
/// approves it: it returns that proposal and clears it, whatever the admin
/// entry and the flag hold.
pub proof fn rule_second_signature_approves(s: StorageView, caller: Seq<char>, now: u64)
    requires
        s.backup_key == Some(caller),
        s.pending.is_some(),
        now <= s.pending.unwrap().expires_at,
    ensures
        second_signature_outcome(s, caller, now).0 == Ok::<ProposalView, UpgradeMfaError>(s.pending.unwrap()),
        is_cleared_from(second_signature_outcome(s, caller, now).1, s),
{
}

/// The second signature never looks at the admin entry or the flag: two
/// storages that differ only there give the same result.
pub proof fn rule_second_signature_ignores_admin_and_flag(
    s: StorageView,
    admin: Option<Seq<char>>,
    flag: bool,
    caller: Seq<char>,
    now: u64,
)
    ensures
        second_signature_outcome(StorageView { admin, pending_flag: flag, ..s }, caller, now).0
            == second_signature_outcome(s, caller, now).0,
{
}

// ─── Queries ──────────────────────────────────────────────────────────────────

/// With the flag lowered `is_upgrade_pending` answers false and changes nothing.
pub proof fn rule_upgrade_pending_flag_lowered(s: StorageView, now: u64)
    requires
        !s.pending_flag,
    ensures
        upgrade_pending_outcome(s, now) == (false, s),
{
}

/// With the flag raised and no expired proposal recorded (none, or one at or
/// before its expiry) `is_upgrade_pending` answers true and changes nothing.
pub proof fn rule_upgrade_pending_open(s: StorageView, now: u64)
    requires
        s.pending_flag,
        s.pending.is_none() || now <= s.pending.unwrap().expires_at,
    ensures
        upgrade_pending_outcome(s, now) == (true, s),
{
}

/// With the flag raised and an expired proposal recorded `is_upgrade_pending`
/// answers false and clears it.
pub proof fn rule_upgrade_pending_expired(s: StorageView, now: u64)
    requires
        s.pending_flag,
        s.pending.is_some(),
        now > s.pending.unwrap().expires_at,
    ensures
        !upgrade_pending_outcome(s, now).0,
        is_cleared_from(upgrade_pending_outcome(s, now).1, s),
{
}

/// With no proposal recorded `get_pending_upgrade` returns none and changes
/// nothing.
pub proof fn rule_pending_upgrade_none(s: StorageView, now: u64)
    requires
        s.pending.is_none(),
    ensures
        pending_upgrade_outcome(s, now) == (None::<ProposalView>, s),
{
}

/// A recorded proposal at or before its expiry is returned by
/// `get_pending_upgrade`, which changes nothing, whatever the signers and the
/// flag hold.
pub proof fn rule_pending_upgrade_open(s: StorageView, now: u64)
    requires
        s.pending.is_some(),
        now <= s.pending.unwrap().expires_at,
    ensures
        pending_upgrade_outcome(s, now) == (Some(s.pending.unwrap()), s),
{
}

/// A recorded proposal past its expiry is not returned by
/// `get_pending_upgrade`, which clears it.
pub proof fn rule_pending_upgrade_expired(s: StorageView, now: u64)
    requires
        s.pending.is_some(),
        now > s.pending.unwrap().expires_at,
    ensures
        pending_upgrade_outcome(s, now).0.is_none(),
        is_cleared_from(pending_upgrade_outcome(s, now).1, s),
{
}

/// Neither query looks at the signers: storages that differ only in the admin
/// and backup-key entries give the same answers.
pub proof fn rule_queries_ignore_signers(
    s: StorageView,
    admin: Option<Seq<char>>,
    backup_key: Option<Seq<char>>,
    now: u64,
)
    ensures
        upgrade_pending_outcome(StorageView { admin, backup_key, ..s }, now).0 == upgrade_pending_outcome(s, now).0,
        pending_upgrade_outcome(StorageView { admin, backup_key, ..s }, now).0 == pending_upgrade_outcome(s, now).0,
{
}

} // verus!
