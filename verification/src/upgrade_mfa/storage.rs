use vstd::prelude::*;

use crate::upgrade_mfa::types::{AccountAddress, ProposalView, UpgradePendingState};

verus! {

/// The contract's persistent entries that the upgrade flow uses: the admin,
/// the backup key, the pending proposal and the "upgrade pending" flag.
///
/// An absent entry is `None`; an absent flag reads as `false`. Callers load
/// these entries from ledger storage before an operation and store back the
/// ones that changed.
#[derive(Clone, Debug, PartialEq)]
pub struct MfaStorage {
    pub admin: Option<AccountAddress>,
    pub backup_key: Option<AccountAddress>,
    pub pending: Option<UpgradePendingState>,
    pub pending_flag: bool,
}

/// The upgrade-flow storage as plain values.
pub struct StorageView {
    pub admin: Option<Seq<char>>,
    pub backup_key: Option<Seq<char>>,
    pub pending: Option<ProposalView>,
    pub pending_flag: bool,
}

/// An optional address as an optional strkey.
pub open spec fn address_option_view(a: Option<AccountAddress>) -> Option<Seq<char>> {
    match a {
        Some(addr) => Some(addr@),
        None => None,
    }
}

/// An optional proposal as plain values.
pub open spec fn proposal_option_view(p: Option<UpgradePendingState>) -> Option<ProposalView> {
    match p {
        Some(state) => Some(state@),
        None => None,
    }
}

impl View for MfaStorage {
    type V = StorageView;

    open spec fn view(&self) -> StorageView {
        StorageView {
            admin: address_option_view(self.admin),
            backup_key: address_option_view(self.backup_key),
            pending: proposal_option_view(self.pending),
            pending_flag: self.pending_flag,
        }
    }
}

/// The storage with nothing recorded.
pub open spec fn empty_storage() -> StorageView {
    StorageView { admin: None, backup_key: None, pending: None, pending_flag: false }
}

/// The storage with `admin` recorded as the primary admin.
pub open spec fn with_admin(s: StorageView, admin: Seq<char>) -> StorageView {
    StorageView { admin: Some(admin), backup_key: s.backup_key, pending: s.pending, pending_flag: s.pending_flag }
}

/// The storage with `backup` recorded as the backup key.
pub open spec fn with_backup_key(s: StorageView, backup: Seq<char>) -> StorageView {
    StorageView { admin: s.admin, backup_key: Some(backup), pending: s.pending, pending_flag: s.pending_flag }
}

/// The storage with the proposal `state` recorded and the flag raised.
pub open spec fn stored_pending(s: StorageView, state: ProposalView) -> StorageView {
    StorageView { admin: s.admin, backup_key: s.backup_key, pending: Some(state), pending_flag: true }
}

/// The storage with the proposal removed and the flag lowered.
pub open spec fn cleared_pending(s: StorageView) -> StorageView {
    StorageView { admin: s.admin, backup_key: s.backup_key, pending: None, pending_flag: false }
}

/// The flag is raised exactly when a proposal is recorded.
pub open spec fn pending_consistent(s: StorageView) -> bool {
    s.pending_flag == s.pending.is_some()
}

impl MfaStorage {
    /// The storage of a contract on which nothing has been recorded yet.
    pub fn new() -> (s: MfaStorage)
        ensures
            s@ == empty_storage(),
    {
        MfaStorage { admin: None, backup_key: None, pending: None, pending_flag: false }
    }
}

fn copy_address_option(a: &Option<AccountAddress>) -> (r: Option<AccountAddress>)
    ensures
        r == *a,
{
    match a {
        Some(addr) => Some(addr.copy()),
        None => None,
    }
}

// ─── Config ───────────────────────────────────────────────────────────────────

/// Record `admin` as the primary admin.
pub fn set_admin(store: &mut MfaStorage, admin: &AccountAddress)
    ensures
        final(store)@ == with_admin(old(store)@, admin@),
{
    store.admin = Some(admin.copy());
}

/// The recorded primary admin, if any.
pub fn get_admin(store: &MfaStorage) -> (r: Option<AccountAddress>)
    ensures
        r == store.admin,
{
    copy_address_option(&store.admin)
}

/// Record `backup` as the backup signing key.
pub fn set_backup_key(store: &mut MfaStorage, backup: &AccountAddress)
    ensures
        final(store)@ == with_backup_key(old(store)@, backup@),
{
    store.backup_key = Some(backup.copy());
}

/// The recorded backup signing key, if any.
pub fn get_backup_key(store: &MfaStorage) -> (r: Option<AccountAddress>)
    ensures
        r == store.backup_key,
{
    copy_address_option(&store.backup_key)
}

// ─── Pending-upgrade state ────────────────────────────────────────────────────

/// Record `state` as the pending proposal and raise the pending flag.
pub fn store_pending(store: &mut MfaStorage, state: &UpgradePendingState)
    ensures
        final(store)@ == stored_pending(old(store)@, state@),
{
    store.pending = Some(state.copy());
    store.pending_flag = true;
}

/// The recorded pending proposal, if any.
pub fn get_pending(store: &MfaStorage) -> (r: Option<UpgradePendingState>)
    ensures
        proposal_option_view(r) == store@.pending,
{
    match &store.pending {
        Some(p) => Some(p.copy()),
        None => None,
    }
}

/// Whether the pending flag is raised.
pub fn is_pending(store: &MfaStorage) -> (r: bool)
    ensures
        r == store@.pending_flag,
{
    store.pending_flag
}

/// Remove the pending proposal and lower the pending flag.
pub fn clear_pending(store: &mut MfaStorage)
    ensures
        final(store)@ == cleared_pending(old(store)@),
{
    store.pending = None;
    store.pending_flag = false;
}

} // verus!
