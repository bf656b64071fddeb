//! Properties of the upgrade flow over any sequence of calls, the storage
//! functions included.

use vstd::prelude::*;

use crate::upgrade_mfa::logic::{
    SECOND_SIG_WINDOW_SECS, first_signature_outcome, initialized, pending_upgrade_outcome,
    second_signature_outcome, upgrade_pending_outcome,
};
use crate::upgrade_mfa::storage::{
    StorageView, cleared_pending, pending_consistent, stored_pending, with_admin, with_backup_key,
};
use crate::upgrade_mfa::types::{ProposalView, UpgradeMfaError};

verus! {

/// One call that changes (or may change) the upgrade-flow storage, with its
/// arguments as plain values. The getters change nothing and are left out.
pub enum MfaStep {
    Initialize { admin: Seq<char>, backup_key: Seq<char> },
    FirstSignature { caller: Seq<char>, description: Seq<u8>, now: u64 },
    SecondSignature { caller: Seq<char>, now: u64 },
    IsUpgradePending { now: u64 },
    GetPendingUpgrade { now: u64 },
    SetAdmin { admin: Seq<char> },
    SetBackupKey { backup_key: Seq<char> },
    StorePending { state: ProposalView },
    ClearPending,
}

/// The storage after one call.
pub open spec fn apply_step(s: StorageView, step: MfaStep) -> StorageView {
    match step {
        MfaStep::Initialize { admin, backup_key } => initialized(s, admin, backup_key),
        MfaStep::FirstSignature { caller, description, now } => first_signature_outcome(
            s,
            caller,
            description,
            now,
        ).1,
        MfaStep::SecondSignature { caller, now } => second_signature_outcome(s, caller, now).1,
        MfaStep::IsUpgradePending { now } => upgrade_pending_outcome(s, now).1,
        MfaStep::GetPendingUpgrade { now } => pending_upgrade_outcome(s, now).1,
        MfaStep::SetAdmin { admin } => with_admin(s, admin),
        MfaStep::SetBackupKey { backup_key } => with_backup_key(s, backup_key),
        MfaStep::StorePending { state } => stored_pending(s, state),
        MfaStep::ClearPending => cleared_pending(s),
    }
}

/// The storage after the calls `steps`, in order, starting from `s`.
pub open spec fn run_steps(s: StorageView, steps: Seq<MfaStep>) -> StorageView
    decreases steps.len(),
{
    if steps.len() == 0 {
        s
    } else {
        apply_step(run_steps(s, steps.drop_last()), steps.last())
    }
}

/// The storage just before call `k` of `steps`.
pub open spec fn state_before(s: StorageView, steps: Seq<MfaStep>, k: int) -> StorageView {
    run_steps(s, steps.take(k))
}

/// The admin that call `step` records, if it records one.
pub open spec fn admin_written(step: MfaStep) -> Option<Seq<char>> {
    match step {
        MfaStep::Initialize { admin, .. } => Some(admin),
        MfaStep::SetAdmin { admin } => Some(admin),
        _ => None,
    }
}

/// The backup key that call `step` records, if it records one.
pub open spec fn backup_key_written(step: MfaStep) -> Option<Seq<char>> {
    match step {
        MfaStep::Initialize { backup_key, .. } => Some(backup_key),
        MfaStep::SetBackupKey { backup_key } => Some(backup_key),
        _ => None,
    }
}

/// Call `step` cannot touch the pending proposal or the flag: it only
/// records signers.
pub open spec fn leaves_pending(step: MfaStep) -> bool {
    step is Initialize || step is SetAdmin || step is SetBackupKey
}

/// Call `k` of `steps` records a proposal: it is a direct `store_pending`, or
/// a first signature that is accepted.
pub open spec fn records_proposal_at(s: StorageView, steps: Seq<MfaStep>, k: int) -> bool {
    ||| steps[k] is StorePending
    ||| steps[k] matches MfaStep::FirstSignature { caller, description, now }
        && first_signature_outcome(state_before(s, steps, k), caller, description, now).0 is Ok
}

/// Call `k` of `steps` (run from `s`) is an accepted first signature that
/// recorded `p`, and its caller was the registered admin at that moment.
pub open spec fn recorded_by_admin_at(s: StorageView, steps: Seq<MfaStep>, p: ProposalView, k: int) -> bool {
    &&& 0 <= k < steps.len()
    &&& steps[k] matches MfaStep::FirstSignature { caller, description, now } && {
        &&& state_before(s, steps, k).admin == Some(caller)
        &&& first_signature_outcome(state_before(s, steps, k), caller, description, now).0 is Ok
        &&& p == (ProposalView {
            proposed_by: caller,
            expires_at: (now + SECOND_SIG_WINDOW_SECS) as u64,
            description,
        })
    }
}

// ─── Sequence bookkeeping ─────────────────────────────────────────────────────

proof fn lemma_state_after_step(s: StorageView, steps: Seq<MfaStep>, k: int)
    requires
        0 <= k < steps.len(),
    ensures
        state_before(s, steps, k + 1) == apply_step(state_before(s, steps, k), steps[k]),
{
    assert(steps.take(k + 1).drop_last() =~= steps.take(k));
}

proof fn lemma_state_at_end(s: StorageView, steps: Seq<MfaStep>)
    ensures
        state_before(s, steps, steps.len() as int) == run_steps(s, steps),
{
    assert(steps.take(steps.len() as int) =~= steps);
}

/// A property of the storage that holds before call `k` and that each later
/// call keeps holds at the end.
proof fn lemma_kept_to_end(s: StorageView, steps: Seq<MfaStep>, k: int, p: spec_fn(StorageView) -> bool)
    requires
        0 <= k <= steps.len(),
        p(state_before(s, steps, k)),
        forall|j: int|
            k <= j < steps.len() && #[trigger] p(state_before(s, steps, j)) ==> p(
                state_before(s, steps, j + 1),
            ),
    ensures
        p(run_steps(s, steps)),
    decreases steps.len() - k,
{
    if k == steps.len() {
        lemma_state_at_end(s, steps);
    } else {
        assert(p(state_before(s, steps, k + 1)));
        lemma_kept_to_end(s, steps, k + 1, p);
    }
}

// ─── Laws ─────────────────────────────────────────────────────────────────────

/// The pending flag stays in step with the recorded proposal over any
/// sequence of calls, the storage setters included, that starts from
/// consistent storage (fresh storage is).
pub proof fn lemma_flag_consistent_over_any_history(s: StorageView, steps: Seq<MfaStep>)
    requires
        pending_consistent(s),
    ensures
        pending_consistent(run_steps(s, steps)),
{
    let p = |v: StorageView| pending_consistent(v);
    assert(steps.take(0) =~= Seq::<MfaStep>::empty());
    assert forall|j: int| 0 <= j < steps.len() && #[trigger] p(state_before(s, steps, j)) implies p(
        state_before(s, steps, j + 1),
    ) by {
        lemma_state_after_step(s, steps, j);
    }
    lemma_kept_to_end(s, steps, 0, p);
}

/// The admin read at the end is the one recorded by the last call that
/// records an admin (`initialize_mfa` or `set_admin`), or the one at the
/// start if no call records one.
pub proof fn lemma_admin_is_last_written(s: StorageView, steps: Seq<MfaStep>, k: int)
    requires
        0 <= k <= steps.len(),
        forall|j: int| k < j < steps.len() ==> (#[trigger] admin_written(steps[j])).is_none(),
        k == steps.len() ==> forall|j: int| 0 <= j < steps.len() ==> (#[trigger] admin_written(steps[j])).is_none(),
    ensures
        k < steps.len() && admin_written(steps[k]).is_some() ==> run_steps(s, steps).admin == admin_written(steps[k]),
        k < steps.len() && admin_written(steps[k]).is_none() ==> run_steps(s, steps).admin == state_before(s, steps, k).admin,
        k == steps.len() ==> run_steps(s, steps).admin == s.admin,
{
    let start = if k == steps.len() { 0 } else { k };
    let a = state_before(s, steps, start).admin;
    let pa = |v: StorageView| v.admin == a;
    assert(steps.take(0) =~= Seq::<MfaStep>::empty());
    if k < steps.len() {
        lemma_state_after_step(s, steps, k);
        let a1 = state_before(s, steps, k + 1).admin;
        let p1 = |v: StorageView| v.admin == a1;
        assert forall|j: int| k + 1 <= j < steps.len() && #[trigger] p1(state_before(s, steps, j)) implies p1(
            state_before(s, steps, j + 1),
        ) by {
            lemma_state_after_step(s, steps, j);
            assert(admin_written(steps[j]).is_none());
        }
        lemma_kept_to_end(s, steps, k + 1, p1);
    } else {
        assert forall|j: int| 0 <= j < steps.len() && #[trigger] pa(state_before(s, steps, j)) implies pa(
            state_before(s, steps, j + 1),
        ) by {
            lemma_state_after_step(s, steps, j);
            assert(admin_written(steps[j]).is_none());
        }
        lemma_kept_to_end(s, steps, 0, pa);
    }
}

/// The backup key read at the end is the one recorded by the last call that
/// records a backup key (`initialize_mfa` or `set_backup_key`), or the one at
/// the start if no call records one; `set_admin` never changes it.
pub proof fn lemma_backup_key_is_last_written(s: StorageView, steps: Seq<MfaStep>, k: int)
    requires
        0 <= k <= steps.len(),
        forall|j: int| k < j < steps.len() ==> (#[trigger] backup_key_written(steps[j])).is_none(),
        k == steps.len() ==> forall|j: int| 0 <= j < steps.len() ==> (#[trigger] backup_key_written(steps[j])).is_none(),
    ensures
        k < steps.len() && backup_key_written(steps[k]).is_some() ==> run_steps(s, steps).backup_key
            == backup_key_written(steps[k]),
        k < steps.len() && backup_key_written(steps[k]).is_none() ==> run_steps(s, steps).backup_key
            == state_before(s, steps, k).backup_key,
        k == steps.len() ==> run_steps(s, steps).backup_key == s.backup_key,
{
    let start = if k == steps.len() { 0 } else { k };
    let b = state_before(s, steps, start).backup_key;
    let pb = |v: StorageView| v.backup_key == b;
    assert(steps.take(0) =~= Seq::<MfaStep>::empty());
    if k < steps.len() {
        lemma_state_after_step(s, steps, k);
        let b1 = state_before(s, steps, k + 1).backup_key;
        let p1 = |v: StorageView| v.backup_key == b1;
        assert forall|j: int| k + 1 <= j < steps.len() && #[trigger] p1(state_before(s, steps, j)) implies p1(
            state_before(s, steps, j + 1),
        ) by {
            lemma_state_after_step(s, steps, j);
            assert(backup_key_written(steps[j]).is_none());
        }
        lemma_kept_to_end(s, steps, k + 1, p1);
    } else {
        assert forall|j: int| 0 <= j < steps.len() && #[trigger] pb(state_before(s, steps, j)) implies pb(
            state_before(s, steps, j + 1),
        ) by {
            lemma_state_after_step(s, steps, j);
            assert(backup_key_written(steps[j]).is_none());
        }
        lemma_kept_to_end(s, steps, 0, pb);
    }
}

/// The pending proposal and flag read at the end are those left by call `k`
/// when every later call only records signers: after `store_pending(p)` the
/// proposal is `p` and the flag is raised; after `clear_pending` there is no
/// proposal and the flag is lowered.
pub proof fn lemma_pending_is_last_written(s: StorageView, steps: Seq<MfaStep>, k: int)
    requires
        0 <= k < steps.len(),
        forall|j: int| k < j < steps.len() ==> leaves_pending(#[trigger] steps[j]),
    ensures
        steps[k] matches MfaStep::StorePending { state } ==> run_steps(s, steps).pending == Some(state)
            && run_steps(s, steps).pending_flag,
        steps[k] is ClearPending ==> run_steps(s, steps).pending.is_none() && !run_steps(s, steps).pending_flag,
        run_steps(s, steps).pending == state_before(s, steps, k + 1).pending,
        run_steps(s, steps).pending_flag == state_before(s, steps, k + 1).pending_flag,
{
    lemma_state_after_step(s, steps, k);
    let after_k = state_before(s, steps, k + 1);
    let p = |v: StorageView| v.pending == after_k.pending && v.pending_flag == after_k.pending_flag;
    assert forall|j: int| k + 1 <= j < steps.len() && #[trigger] p(state_before(s, steps, j)) implies p(
        state_before(s, steps, j + 1),
    ) by {
        lemma_state_after_step(s, steps, j);
        assert(leaves_pending(steps[j]));
    }
    lemma_kept_to_end(s, steps, k + 1, p);
}

/// Once no proposal is recorded (after an approval, an expiry or a clear),
/// none is recorded again until a call records one; until then every
/// confirmation is refused, as `NoPendingUpgrade` when it comes from the
/// backup key.
pub proof fn lemma_no_confirmation_without_new_proposal(
    s: StorageView,
    steps: Seq<MfaStep>,
    k: int,
    caller: Seq<char>,
    now: u64,
)
    requires
        0 <= k <= steps.len(),
        state_before(s, steps, k).pending.is_none(),
        forall|j: int| k <= j < steps.len() ==> !#[trigger] records_proposal_at(s, steps, j),
    ensures
        run_steps(s, steps).pending.is_none(),
        second_signature_outcome(run_steps(s, steps), caller, now).0 is Err,
        run_steps(s, steps).backup_key == Some(caller) ==> second_signature_outcome(
            run_steps(s, steps),
            caller,
            now,
        ).0 == Err::<ProposalView, UpgradeMfaError>(UpgradeMfaError::NoPendingUpgrade),
{
    let p = |v: StorageView| v.pending.is_none();
    assert forall|j: int| k <= j < steps.len() && #[trigger] p(state_before(s, steps, j)) implies p(
        state_before(s, steps, j + 1),
    ) by {
        lemma_state_after_step(s, steps, j);
        assert(!records_proposal_at(s, steps, j));
    }
    lemma_kept_to_end(s, steps, k, p);
}

/// An approval or an expiry clears the proposal: right after a second
/// signature that returns the proposal or `UpgradeExpired`, none is recorded.
pub proof fn lemma_confirmation_outcome_clears(s: StorageView, steps: Seq<MfaStep>, k: int)
    requires
        0 <= k < steps.len(),
        steps[k] matches MfaStep::SecondSignature { caller, now } && {
            let r = second_signature_outcome(state_before(s, steps, k), caller, now).0;
            r is Ok || r == Err::<ProposalView, UpgradeMfaError>(UpgradeMfaError::UpgradeExpired)
        },
    ensures
        state_before(s, steps, k + 1).pending.is_none(),
{
    lemma_state_after_step(s, steps, k);
}

/// Every recorded proposal was recorded by an accepted first signature whose
/// caller was then the admin: over any sequence of calls in which the
/// proposal is never written directly by `store_pending` (signers may be
/// changed and the proposal cleared at any time), starting with no proposal
/// recorded, a proposal recorded at the end was recorded by some earlier
/// first signature from the then-registered admin.
pub proof fn lemma_recorded_proposals_come_from_admin(s: StorageView, steps: Seq<MfaStep>)
    requires
        s.pending.is_none(),
        forall|j: int| 0 <= j < steps.len() ==> !(#[trigger] steps[j] is StorePending),
    ensures
        run_steps(s, steps).pending.is_some() ==> exists|k: int|
            recorded_by_admin_at(s, steps, run_steps(s, steps).pending.unwrap(), k),
    decreases steps.len(),
{
    if steps.len() > 0 {
        let prefix = steps.drop_last();
        let before = run_steps(s, prefix);
        let after = run_steps(s, steps);
        assert forall|j: int| 0 <= j < prefix.len() implies !(#[trigger] prefix[j] is StorePending) by {
            assert(prefix[j] == steps[j]);
        }
        lemma_recorded_proposals_come_from_admin(s, prefix);
        assert(steps.take(steps.len() - 1) =~= prefix);
        if after.pending.is_some() {
            let p = after.pending.unwrap();
            let last = steps.last();
            assert(!(steps[steps.len() - 1] is StorePending));
            if last matches MfaStep::FirstSignature { caller, description, now }
                && first_signature_outcome(before, caller, description, now).0 is Ok {
                assert(recorded_by_admin_at(s, steps, p, steps.len() - 1));
            } else {
                assert(before.pending == Some(p));
                let k = choose|k: int| recorded_by_admin_at(s, prefix, p, k);
                assert(steps.take(k) =~= prefix.take(k));
                assert(steps[k] == prefix[k]);
                assert(recorded_by_admin_at(s, steps, p, k));
            }
        }
    }
}

/// An approved upgrade had both signatures: over any sequence of calls as in
/// [`lemma_recorded_proposals_come_from_admin`], a second signature that is
/// accepted came from the registered backup key, and the proposal it
/// returns was recorded by an earlier first signature whose caller was then
/// the admin.
pub proof fn lemma_approved_proposals_come_from_admin(
    s: StorageView,
    steps: Seq<MfaStep>,
    caller: Seq<char>,
    now: u64,
)
    requires
        s.pending.is_none(),
        forall|j: int| 0 <= j < steps.len() ==> !(#[trigger] steps[j] is StorePending),
    ensures
        second_signature_outcome(run_steps(s, steps), caller, now).0 is Ok ==> {
            &&& run_steps(s, steps).backup_key == Some(caller)
            &&& exists|k: int|
                recorded_by_admin_at(
                    s,
                    steps,
                    second_signature_outcome(run_steps(s, steps), caller, now).0.unwrap(),
                    k,
                )
        },
{
    lemma_recorded_proposals_come_from_admin(s, steps);
    let end = run_steps(s, steps);
    if second_signature_outcome(end, caller, now).0 is Ok {
        let p = end.pending.unwrap();
        let k = choose|k: int| recorded_by_admin_at(s, steps, p, k);
        assert(second_signature_outcome(end, caller, now).0.unwrap() == p);
        assert(recorded_by_admin_at(s, steps, second_signature_outcome(end, caller, now).0.unwrap(), k));
    }
}

} // verus!
