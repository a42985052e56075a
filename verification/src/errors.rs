use vstd::prelude::*;

verus! {

use crate::token::TransferError;

/// Errors raised by the vault's own authorization and validation checks.
#[derive(Clone, Copy, Debug, PartialEq, Eq, Structural)]
pub enum SplPaymentError {
    /// The caller is not the configured owner.
    NotAllowedOwner,
    /// Reserved for a deposit cap; no current check raises it.
    MaxDepositAmount,
    /// A withdrawal asked for more than the depositor's recorded stake.
    InvalidAmount,
    /// A value-moving operation was called with a zero amount.
    ZeroAmount,
    /// The supplied asset identifier is not the one this vault accepts.
    InvalidTokenAddress,
}

/// Everything a value-moving operation can fail with: one of the vault's own
/// checks, or a failure reported by the transfer primitive and passed on
/// verbatim.
#[derive(Clone, Copy, Debug, PartialEq, Eq, Structural)]
pub enum VaultError {
    Payment(SplPaymentError),
    Transfer(TransferError),
}

} // verus!
