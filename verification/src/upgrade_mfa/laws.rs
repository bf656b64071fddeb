//! Properties of the upgrade flow that span several calls.

use vstd::prelude::*;

use crate::upgrade_mfa::logic::{
    SECOND_SIG_WINDOW_SECS, first_signature_outcome, initialized, pending_upgrade_outcome,
    proposal_open, second_signature_outcome, upgrade_pending_outcome,
};
use crate::upgrade_mfa::storage::{
    StorageView, cleared_pending, empty_storage, pending_consistent, stored_pending, with_admin,
    with_backup_key,
};
use crate::upgrade_mfa::types::{ProposalView, UpgradeMfaError};

verus! {

/// Reading back the storage: after a proposal is stored, it is the recorded
/// proposal and the flag is raised; after it is cleared, none is recorded and
/// the flag is lowered. Neither touches the admin or the backup key.
pub proof fn lemma_storage_read_after_write(s: StorageView, state: ProposalView)
    ensures
        stored_pending(s, state).pending == Some(state),
        stored_pending(s, state).pending_flag,
        stored_pending(s, state).admin == s.admin,
        stored_pending(s, state).backup_key == s.backup_key,
        cleared_pending(s).pending.is_none(),
        !cleared_pending(s).pending_flag,
        cleared_pending(s).admin == s.admin,
        cleared_pending(s).backup_key == s.backup_key,
        cleared_pending(stored_pending(s, state)) == cleared_pending(s),
{
}

/// Reading back the signers: after recording an admin or a backup key it is
/// the one recorded, and the other entries are untouched.
pub proof fn lemma_signers_read_after_write(s: StorageView, admin: Seq<char>, backup: Seq<char>)
    ensures
        with_admin(s, admin).admin == Some(admin),
        with_admin(s, admin).backup_key == s.backup_key,
        with_admin(s, admin).pending == s.pending,
        with_admin(s, admin).pending_flag == s.pending_flag,
        with_backup_key(s, backup).backup_key == Some(backup),
        with_backup_key(s, backup).admin == s.admin,
        with_backup_key(s, backup).pending == s.pending,
        with_backup_key(s, backup).pending_flag == s.pending_flag,
{
}

/// Fresh storage has nothing pending and nothing initialised: both steps
/// are refused as uninitialised, and the flag is consistent.
pub proof fn lemma_fresh_storage(caller: Seq<char>, description: Seq<u8>, now: u64)
    ensures
        pending_consistent(empty_storage()),
        first_signature_outcome(empty_storage(), caller, description, now).0 == Err::<(), UpgradeMfaError>(
            UpgradeMfaError::NotInitialized,
        ),
        second_signature_outcome(empty_storage(), caller, now).0 == Err::<ProposalView, UpgradeMfaError>(
            UpgradeMfaError::NotInitialized,
        ),
        !upgrade_pending_outcome(empty_storage(), now).0,
        pending_upgrade_outcome(empty_storage(), now).0.is_none(),
{
}

/// The full two-step flow: after `initialize_mfa(admin, backup)`, a proposal
/// by the admin at time `t1` is accepted and pending; the backup key's
/// confirmation at any `t2` within the window returns exactly that proposal,
/// after which nothing is pending.
pub proof fn lemma_two_step_approval(
    s: StorageView,
    admin: Seq<char>,
    backup: Seq<char>,
    description: Seq<u8>,
    t1: u64,
    t2: u64,
)
    requires
        !proposal_open(s, t1),
        t1 + SECOND_SIG_WINDOW_SECS <= u64::MAX,
        t2 <= t1 + SECOND_SIG_WINDOW_SECS,
    ensures
        ({
            let s1 = initialized(s, admin, backup);
            let (r1, s2) = first_signature_outcome(s1, admin, description, t1);
            let (r2, s3) = second_signature_outcome(s2, backup, t2);
            &&& r1 == Ok::<(), UpgradeMfaError>(())
            &&& upgrade_pending_outcome(s2, t2).0
            &&& pending_upgrade_outcome(s2, t2).0 == Some(s2.pending.unwrap())
            &&& r2 == Ok::<ProposalView, UpgradeMfaError>(
                ProposalView {
                    proposed_by: admin,
                    expires_at: (t1 + SECOND_SIG_WINDOW_SECS) as u64,
                    description,
                },
            )
            &&& s3.pending.is_none()
            &&& forall|t: u64| !(#[trigger] upgrade_pending_outcome(s3, t)).0
        }),
{
}

/// A confirmation after the window has closed is refused as expired and
/// clears the proposal, so nothing is pending afterwards.
pub proof fn lemma_late_confirmation_expires(
    s: StorageView,
    admin: Seq<char>,
    backup: Seq<char>,
    description: Seq<u8>,
    t1: u64,
    t2: u64,
)
    requires
        s.admin == Some(admin),
        s.backup_key == Some(backup),
        !proposal_open(s, t1),
        t1 + SECOND_SIG_WINDOW_SECS <= u64::MAX,
        t2 > t1 + SECOND_SIG_WINDOW_SECS,
    ensures
        ({
            let (r1, s2) = first_signature_outcome(s, admin, description, t1);
            let (r2, s3) = second_signature_outcome(s2, backup, t2);
            &&& r1 is Ok
            &&& r2 == Err::<ProposalView, UpgradeMfaError>(UpgradeMfaError::UpgradeExpired)
            &&& s3 == cleared_pending(s2)
            &&& forall|t: u64| !(#[trigger] upgrade_pending_outcome(s3, t)).0
        }),
{
}

/// While a proposal is within its window a second proposal is refused and
/// changes nothing; once the window has closed, the admin may propose again.
pub proof fn lemma_one_open_proposal_at_a_time(
    s: StorageView,
    admin: Seq<char>,
    first_description: Seq<u8>,
    second_description: Seq<u8>,
    t1: u64,
    t2: u64,
)
    requires
        s.admin == Some(admin),
        !proposal_open(s, t1),
        t1 + SECOND_SIG_WINDOW_SECS <= u64::MAX,
        t2 + SECOND_SIG_WINDOW_SECS <= u64::MAX,
    ensures
        ({
            let (r1, s2) = first_signature_outcome(s, admin, first_description, t1);
            let (r2, s3) = first_signature_outcome(s2, admin, second_description, t2);
            &&& r1 is Ok
            &&& t2 <= t1 + SECOND_SIG_WINDOW_SECS ==> r2 == Err::<(), UpgradeMfaError>(
                UpgradeMfaError::AlreadyPending,
            ) && s3 == s2
            &&& t2 > t1 + SECOND_SIG_WINDOW_SECS ==> r2 is Ok && s3.pending == Some(
                ProposalView {
                    proposed_by: admin,
                    expires_at: (t2 + SECOND_SIG_WINDOW_SECS) as u64,
                    description: second_description,
                },
            )
        }),
{
}

/// Only the registered signers can act: an accepted first signature came from
/// the admin and records the caller as proposer; an accepted second signature
/// came from the backup key, within the window of the proposal it returns,
/// which is the one that was recorded.
pub proof fn lemma_only_registered_signers_succeed(
    s: StorageView,
    caller: Seq<char>,
    description: Seq<u8>,
    now: u64,
)
    ensures
        first_signature_outcome(s, caller, description, now).0 is Ok ==> {
            &&& s.admin.is_some() && s.admin == Some(caller)
            &&& first_signature_outcome(s, caller, description, now).1.pending.unwrap().proposed_by
                == caller
        },
        second_signature_outcome(s, caller, now).0 is Ok ==> {
            &&& s.backup_key.is_some() && s.backup_key == Some(caller)
            &&& s.pending == Some(second_signature_outcome(s, caller, now).0.unwrap())
            &&& now <= s.pending.unwrap().expires_at
        },
{
}

/// A refused step leaves the storage as it was, except that an expired
/// proposal found by the second signature is cleared.
pub proof fn lemma_refusals_change_nothing(
    s: StorageView,
    caller: Seq<char>,
    description: Seq<u8>,
    now: u64,
)
    ensures
        first_signature_outcome(s, caller, description, now).0 is Err ==> first_signature_outcome(
            s,
            caller,
            description,
            now,
        ).1 == s,
        second_signature_outcome(s, caller, now).0 is Err ==> {
            ||| second_signature_outcome(s, caller, now).1 == s
            ||| second_signature_outcome(s, caller, now).0 == Err::<ProposalView, UpgradeMfaError>(
                UpgradeMfaError::UpgradeExpired,
            ) && second_signature_outcome(s, caller, now).1 == cleared_pending(s)
        },
{
}

/// Every step keeps the pending flag in step with the recorded proposal.
pub proof fn lemma_steps_keep_flag_consistent(
    s: StorageView,
    caller: Seq<char>,
    other: Seq<char>,
    description: Seq<u8>,
    now: u64,
)
    requires
        pending_consistent(s),
    ensures
        pending_consistent(initialized(s, caller, other)),
        pending_consistent(first_signature_outcome(s, caller, description, now).1),
        pending_consistent(second_signature_outcome(s, caller, now).1),
        pending_consistent(upgrade_pending_outcome(s, now).1),
        pending_consistent(pending_upgrade_outcome(s, now).1),
{
}

/// On consistent storage, the two queries agree: an upgrade is pending
/// exactly when a proposal is returned, and they leave the same storage.
pub proof fn lemma_queries_agree(s: StorageView, now: u64)
    requires
        pending_consistent(s),
    ensures
        upgrade_pending_outcome(s, now).0 == pending_upgrade_outcome(s, now).0.is_some(),
        upgrade_pending_outcome(s, now).1 == pending_upgrade_outcome(s, now).1,
{
}

/// After an accepted proposal at `t1`, and with nothing else changing the
/// proposal, `get_pending_upgrade` at `t2 >= t1` returns it while the window
/// is open (its last second included) and nothing once it has closed, and
/// `is_upgrade_pending` agrees.
pub proof fn lemma_proposal_query_follows_window(
    s: StorageView,
    admin: Seq<char>,
    description: Seq<u8>,
    t1: u64,
    t2: u64,
)
    requires
        s.admin == Some(admin),
        !proposal_open(s, t1),
        t1 + SECOND_SIG_WINDOW_SECS <= u64::MAX,
        t1 <= t2,
    ensures
        ({
            let (r1, s2) = first_signature_outcome(s, admin, description, t1);
            let p = ProposalView {
                proposed_by: admin,
                expires_at: (t1 + SECOND_SIG_WINDOW_SECS) as u64,
                description,
            };
            &&& r1 is Ok
            &&& pending_upgrade_outcome(s2, t2).0 == (if t2 <= t1 + SECOND_SIG_WINDOW_SECS {
                Some(p)
            } else {
                None::<ProposalView>
            })
            &&& upgrade_pending_outcome(s2, t2).0 == (t2 <= t1 + SECOND_SIG_WINDOW_SECS)
        }),
{
}

} // verus!
