use vstd::prelude::*;

verus! {

use crate::errors::SplPaymentError;
use crate::errors::VaultError;
use crate::ledger::entry_index;
use crate::ledger::has_entry;
use crate::ledger::ledger_deposit_step;
use crate::ledger::ledger_withdraw_step;
use crate::ledger::lemma_entry_le_sum;
use crate::ledger::staked_of;
use crate::ledger::sum_amounts;
use crate::state::AccountId;
use crate::state::GlobalState;
use crate::state::UserInfo;
use crate::token::TokenAccount;
use crate::vault::PaymentVault;
use crate::vault::deposit_check;
use crate::vault::withdraw_check;

/// One accepted value-moving operation, as the ledger sees it.
pub enum LedgerOp {
    Deposit { user: AccountId, amount: u64, time: i64 },
    Withdraw { user: AccountId, amount: u64, time: i64 },
}

/// Net amount a depositor has moved in over a run of accepted operations:
/// deposits count positive, withdrawals negative.
pub open spec fn net_of(ops: Seq<LedgerOp>, user: AccountId) -> int
    decreases ops.len(),
{
    if ops.len() == 0 {
        0
    } else {
        net_of(ops.drop_last(), user) + match ops.last() {
            LedgerOp::Deposit { user: u, amount, time } => if u == user {
                amount as int
            } else {
                0
            },
            LedgerOp::Withdraw { user: u, amount, time } => if u == user {
                -(amount as int)
            } else {
                0
            },
        }
    }
}

/// The reshaping of the ledger that one accepted operation performs, exactly
/// as `deposit` and `withdraw` promise it.
pub open spec fn ledger_step(pre: Seq<UserInfo>, post: Seq<UserInfo>, op: LedgerOp) -> bool {
    match op {
        LedgerOp::Deposit { user, amount, time } => ledger_deposit_step(
            pre,
            post,
            user,
            amount,
            time,
        ),
        LedgerOp::Withdraw { user, amount, time } => ledger_withdraw_step(
            pre,
            post,
            user,
            amount,
            time,
        ),
    }
}

/// Every depositor's recorded stake equals their accepted deposits minus
/// their accepted withdrawals, over any run of accepted operations that
/// starts from an empty ledger; in particular that net is never negative.
pub proof fn lemma_staked_is_history_net(
    ledgers: Seq<Seq<UserInfo>>,
    ops: Seq<LedgerOp>,
    user: AccountId,
)
    requires
        ledgers.len() == ops.len() + 1,
        ledgers[0] == Seq::<UserInfo>::empty(),
        forall|k: int| 0 <= k < ops.len() ==> ledger_step(ledgers[k], ledgers[k + 1], ops[k]),
    ensures
        staked_of(ledgers.last(), user) == net_of(ops, user),
        net_of(ops, user) >= 0,
    decreases ops.len(),
{
    if ops.len() == 0 {
        assert(!has_entry(ledgers[0], user));
    } else {
        let n = ops.len() as int;
        assert forall|k: int| 0 <= k < ops.drop_last().len() implies ledger_step(
            ledgers.drop_last()[k],
            ledgers.drop_last()[k + 1],
            ops.drop_last()[k],
        ) by {
            assert(ledger_step(ledgers[k], ledgers[k + 1], ops[k]));
        }
        lemma_staked_is_history_net(ledgers.drop_last(), ops.drop_last(), user);
        assert(ledgers.drop_last().last() == ledgers[n - 1]);
        assert(ledger_step(ledgers[n - 1], ledgers[n], ops[n - 1]));
        assert(ops.last() == ops[n - 1]);
    }
}

/// The pooled vault always holds at least the sum of every recorded stake,
/// and so at least any one depositor's stake.
pub proof fn lemma_vault_covers_ledger(v: &PaymentVault)
    requires
        v.wf(),
    ensures
        sum_amounts(v.users@) <= v.vault.balance,
        forall|a: AccountId| staked_of(v.users@, a) <= v.vault.balance,
{
    assert forall|a: AccountId| staked_of(v.users@, a) <= v.vault.balance by {
        if has_entry(v.users@, a) {
            lemma_entry_le_sum(v.users@, entry_index(v.users@, a));
        }
    }
}

/// A zero amount is never accepted: with the configured asset named, deposit
/// and withdraw both refuse it with `ZeroAmount`, whatever the caller, the
/// wallet, the vault or the ledger hold.
pub proof fn lemma_zero_amount_refused(
    config: GlobalState,
    users: Seq<UserInfo>,
    wallet: TokenAccount,
    vault: TokenAccount,
    user: AccountId,
    token_mint: AccountId,
)
    requires
        token_mint == config.token_mint,
    ensures
        deposit_check(config, wallet, vault, user, 0, token_mint) == Err::<(), VaultError>(
            VaultError::Payment(SplPaymentError::ZeroAmount),
        ),
        withdraw_check(config, users, wallet, user, 0, token_mint) == Err::<(), VaultError>(
            VaultError::Payment(SplPaymentError::ZeroAmount),
        ),
{
}

/// Withdrawing more than the recorded stake is always refused with
/// `InvalidAmount`.
pub proof fn lemma_overdraw_refused(
    config: GlobalState,
    users: Seq<UserInfo>,
    wallet: TokenAccount,
    user: AccountId,
    amount: u64,
    token_mint: AccountId,
)
    requires
        token_mint == config.token_mint,
        amount > staked_of(users, user),
    ensures
        withdraw_check(config, users, wallet, user, amount, token_mint) == Err::<(), VaultError>(
            VaultError::Payment(SplPaymentError::InvalidAmount),
        ),
{
}

/// Naming any asset other than the configured one is always refused with
/// `InvalidTokenAddress`, by deposit and withdraw alike.
pub proof fn lemma_wrong_asset_refused(
    config: GlobalState,
    users: Seq<UserInfo>,
    wallet: TokenAccount,
    vault: TokenAccount,
    user: AccountId,
    amount: u64,
    token_mint: AccountId,
)
    requires
        token_mint != config.token_mint,
    ensures
        deposit_check(config, wallet, vault, user, amount, token_mint) == Err::<(), VaultError>(
            VaultError::Payment(SplPaymentError::InvalidTokenAddress),
        ),
        withdraw_check(config, users, wallet, user, amount, token_mint) == Err::<(), VaultError>(
            VaultError::Payment(SplPaymentError::InvalidTokenAddress),
        ),
{
}

} // verus!
