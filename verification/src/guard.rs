use vstd::prelude::*;

verus! {

use crate::errors::SplPaymentError;
use crate::state::AccountId;
use crate::state::GlobalState;
use crate::state::UserInfo;

/// Pure validation: only the configured owner may change configuration.
pub fn check_owner(caller: AccountId, config: &GlobalState) -> (r: Result<(), SplPaymentError>)
    ensures
        r == (if caller == config.owner {
            Ok::<(), SplPaymentError>(())
        } else {
            Err::<(), SplPaymentError>(SplPaymentError::NotAllowedOwner)
        }),
{
    if caller == config.owner {
        Ok(())
    } else {
        Err(SplPaymentError::NotAllowedOwner)
    }
}

/// Pure validation: a value-moving call must name the one accepted asset.
pub fn check_asset(provided_asset: AccountId, config: &GlobalState) -> (r: Result<
    (),
    SplPaymentError,
>)
    ensures
        r == (if provided_asset == config.token_mint {
            Ok::<(), SplPaymentError>(())
        } else {
            Err::<(), SplPaymentError>(SplPaymentError::InvalidTokenAddress)
        }),
{
    if provided_asset == config.token_mint {
        Ok(())
    } else {
        Err(SplPaymentError::InvalidTokenAddress)
    }
}

/// Pure validation: zero amounts are refused.
pub fn check_amount(amount: u64) -> (r: Result<(), SplPaymentError>)
    ensures
        r == (if amount == 0 {
            Err::<(), SplPaymentError>(SplPaymentError::ZeroAmount)
        } else {
            Ok::<(), SplPaymentError>(())
        }),
{
    if amount == 0 {
        Err(SplPaymentError::ZeroAmount)
    } else {
        Ok(())
    }
}

/// Pure validation: a withdrawal may not exceed the depositor's recorded stake.
pub fn check_sufficient_balance(amount: u64, entry: &UserInfo) -> (r: Result<
    (),
    SplPaymentError,
>)
    ensures
        r == (if amount > entry.amount {
            Err::<(), SplPaymentError>(SplPaymentError::InvalidAmount)
        } else {
            Ok::<(), SplPaymentError>(())
        }),
{
    if entry.amount < amount {
        Err(SplPaymentError::InvalidAmount)
    } else {
        Ok(())
    }
}

} // verus!
