use vstd::prelude::*;

verus! {

/// Identity of an account in the external storage layer's address space.
pub type AccountId = u64;

/// Singleton configuration record: who owns the deployment, which asset it
/// accepts, and which account pools the deposited funds. `token_mint` and
/// `vault` are fixed at initialization; `owner` changes only through
/// `update_owner`, and only at the current owner's request.
#[derive(Clone, Copy, Debug, PartialEq, Eq, Structural)]
pub struct GlobalState {
    /// The account authorized to change configuration.
    pub owner: AccountId,
    /// The one fungible asset this vault accepts.
    pub token_mint: AccountId,
    /// The pooled custody account holding all deposited funds.
    pub vault: AccountId,
}

/// Per-depositor ledger record, keyed by the depositor's address.
#[derive(Clone, Copy, Debug, PartialEq, Eq, Structural)]
pub struct UserInfo {
    /// The depositor's own address, stored redundantly for verification.
    pub address: AccountId,
    /// Total currently staked by this depositor.
    pub amount: u64,
    /// Timestamp of the last mutation of this record.
    pub updated_time: i64,
}

} // verus!
