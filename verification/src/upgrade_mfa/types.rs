use vstd::prelude::*;

verus! {

/// Why a step of the two-signature upgrade flow was refused.
///
/// The contract reports these as error codes 1 to 6, in the order below.
#[derive(Copy, Clone, Debug, PartialEq, Eq, Structural, PartialOrd, Ord)]
pub enum UpgradeMfaError {
    /// The caller is not the primary admin address.
    NotAdmin,
    /// The caller is not the backup key address.
    NotBackupKey,
    /// A second signature was given but no upgrade is pending.
    NoPendingUpgrade,
    /// A second signature was given after the proposal's window closed.
    UpgradeExpired,
    /// No admin (or backup key) has been registered yet.
    NotInitialized,
    /// A proposal is already open and has not expired.
    AlreadyPending,
}

} // verus!

verus! {

/// A Stellar address, held as its strkey text (`G...` for an account, `C...`
/// for a contract). Two addresses are the same when their strkeys are.
#[derive(Clone, Debug, PartialEq, Eq)]
pub struct AccountAddress {
    pub strkey: String,
}

impl View for AccountAddress {
    type V = Seq<char>;

    open spec fn view(&self) -> Seq<char> {
        self.strkey@
    }
}

impl AccountAddress {
    /// Whether `self` and `other` are the same address.
    pub fn same_as(&self, other: &AccountAddress) -> (r: bool)
        ensures
            r == (self@ == other@),
    {
        self.strkey == other.strkey
    }

    /// A copy of this address.
    pub fn copy(&self) -> (r: AccountAddress)
        ensures
            r == *self,
    {
        AccountAddress { strkey: self.strkey.clone() }
    }
}

/// Persisted state of a two-step upgrade proposal.
#[derive(Clone, Debug, PartialEq)]
pub struct UpgradePendingState {
    /// The admin address that submitted the first signature.
    pub proposed_by: AccountAddress,
    /// Ledger timestamp after which the second signature window closes.
    pub expires_at: u64,
    /// Free-form description of what is being upgraded (for audit), as the
    /// bytes of the contract string it was given as.
    pub description: Vec<u8>,
}

/// An upgrade proposal as plain values.
pub struct ProposalView {
    pub proposed_by: Seq<char>,
    pub expires_at: u64,
    pub description: Seq<u8>,
}

impl View for UpgradePendingState {
    type V = ProposalView;

    open spec fn view(&self) -> ProposalView {
        ProposalView {
            proposed_by: self.proposed_by@,
            expires_at: self.expires_at,
            description: self.description@,
        }
    }
}

impl UpgradePendingState {
    /// A copy of this proposal.
    pub fn copy(&self) -> (r: UpgradePendingState)
        ensures
            r@ == self@,
    {
        UpgradePendingState {
            proposed_by: self.proposed_by.copy(),
            expires_at: self.expires_at,
            description: self.description.clone(),
        }
    }
}

} // verus!
