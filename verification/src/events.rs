use vstd::prelude::*;

verus! {

use crate::state::AccountId;

/// Emitted after an accepted deposit, for external observers; never read back.
#[derive(Clone, Copy, Debug, PartialEq, Eq, Structural)]
pub struct DepositEvent {
    pub user: AccountId,
    /// The amount moved into the vault by this deposit.
    pub amount: u64,
    /// The depositor's stake after this deposit.
    pub user_total_staked: u64,
    /// The vault's balance after this deposit.
    pub total_in_vault: u64,
    pub timestamp: i64,
}

/// Emitted after an accepted withdrawal, for external observers; never read back.
#[derive(Clone, Copy, Debug, PartialEq, Eq, Structural)]
pub struct WithdrawEvent {
    pub user: AccountId,
    /// The amount moved out of the vault by this withdrawal.
    pub amount: u64,
    /// The depositor's stake after this withdrawal.
    pub user_total_staked: u64,
    /// The vault's balance after this withdrawal.
    pub total_in_vault: u64,
    pub timestamp: i64,
}

} // verus!
