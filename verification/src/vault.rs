use vstd::prelude::*;

verus! {

use crate::constants::GLOBAL_STATE_SEED;
use crate::errors::SplPaymentError;
use crate::errors::VaultError;
use crate::events::DepositEvent;
use crate::events::WithdrawEvent;
use crate::guard;
use crate::ledger::entry_index;
use crate::ledger::has_entry;
use crate::ledger::ledger_deposit_step;
use crate::ledger::ledger_withdraw_step;
use crate::ledger::lemma_entry_at_index;
use crate::ledger::lemma_entry_le_sum;
use crate::ledger::lemma_ledger_push;
use crate::ledger::lemma_ledger_update;
use crate::ledger::lemma_sum_push;
use crate::ledger::lemma_sum_update;
use crate::ledger::staked_of;
use crate::ledger::sum_amounts;
use crate::ledger::unique_addresses;
use crate::state::AccountId;
use crate::state::GlobalState;
use crate::state::UserInfo;
use crate::token;
use crate::token::AccountOwner;
use crate::token::AuthorityProof;
use crate::token::TokenAccount;
use crate::token::transfer_check;

/// The whole persistent state of one deployment: the configuration singleton,
/// one ledger record per depositor, and the pooled vault account itself.
pub struct PaymentVault {
    pub config: GlobalState,
    pub users: Vec<UserInfo>,
    pub vault: TokenAccount,
}

/// Exactly how a deposit request is adjudicated, in the order the checks run:
/// the vault's own checks first, then the transfer primitive, moving the funds
/// out of the depositor's wallet on the strength of the depositor's signature.
pub open spec fn deposit_check(
    config: GlobalState,
    wallet: TokenAccount,
    vault: TokenAccount,
    user: AccountId,
    amount: u64,
    token_mint: AccountId,
) -> Result<(), VaultError> {
    if token_mint != config.token_mint {
        Err(VaultError::Payment(SplPaymentError::InvalidTokenAddress))
    } else if amount == 0 {
        Err(VaultError::Payment(SplPaymentError::ZeroAmount))
    } else {
        match transfer_check(wallet, vault, AuthorityProof::Signature(user), amount) {
            Err(e) => Err(VaultError::Transfer(e)),
            Ok(()) => Ok(()),
        }
    }
}

/// Exactly how a withdrawal request is adjudicated, in the order the checks
/// run. The transfer out of the vault itself can only fail by overflowing the
/// destination wallet: the vault's balance covers every recorded stake, and
/// the derived credential always matches the vault's owner.
pub open spec fn withdraw_check(
    config: GlobalState,
    users: Seq<UserInfo>,
    wallet: TokenAccount,
    user: AccountId,
    amount: u64,
    token_mint: AccountId,
) -> Result<(), VaultError> {
    if token_mint != config.token_mint {
        Err(VaultError::Payment(SplPaymentError::InvalidTokenAddress))
    } else if staked_of(users, user) < amount {
        Err(VaultError::Payment(SplPaymentError::InvalidAmount))
    } else if amount == 0 {
        Err(VaultError::Payment(SplPaymentError::ZeroAmount))
    } else if wallet.balance + amount > u64::MAX {
        Err(VaultError::Transfer(crate::token::TransferError::Overflow))
    } else {
        Ok(())
    }
}

impl PaymentVault {
    /// Well-formed: one record per depositor, the staked total covered by the
    /// vault's balance, and the vault under the derived signing authority,
    /// never under a personal key.
    pub open spec fn wf(&self) -> bool {
        &&& unique_addresses(self.users@)
        &&& sum_amounts(self.users@) <= self.vault.balance
        &&& self.vault.owner == AccountOwner::Derived(GLOBAL_STATE_SEED)
    }

    /// One-time setup: binds the caller as owner, fixes the accepted asset
    /// and the vault designation, and places the vault account under the
    /// derived signing authority. `vault_balance` is whatever the designated
    /// vault account already held. Being the only constructor, it cannot run
    /// twice against a live deployment.
    pub fn initialize(
        owner: AccountId,
        token_mint: AccountId,
        vault: AccountId,
        vault_balance: u64,
    ) -> (s: Self)
        ensures
            s.wf(),
            s.config == (GlobalState { owner, token_mint, vault }),
            s.users@ == Seq::<UserInfo>::empty(),
            s.vault == (TokenAccount {
                owner: AccountOwner::Derived(GLOBAL_STATE_SEED),
                balance: vault_balance,
            }),
    {
        let s = PaymentVault {
            config: GlobalState { owner, token_mint, vault },
            users: Vec::new(),
            vault: TokenAccount {
                owner: AccountOwner::Derived(GLOBAL_STATE_SEED),
                balance: vault_balance,
            },
        };
        proof {
            assert(s.users@ =~= Seq::<UserInfo>::empty());
        }
        s
    }

    /// Hands the owner role to `new_owner`, provided the caller is the
    /// current owner; any other caller is refused and nothing changes. The
    /// accepted asset and the vault designation can never change.
    pub fn update_owner(&mut self, caller: AccountId, new_owner: AccountId) -> (r: Result<
        (),
        SplPaymentError,
    >)
        requires
            old(self).wf(),
        ensures
            final(self).wf(),
            caller == old(self).config.owner ==> r == Ok::<(), SplPaymentError>(())
                && final(self).config == (GlobalState { owner: new_owner, ..old(self).config })
                && final(self).users == old(self).users && final(self).vault == old(self).vault,
            caller != old(self).config.owner ==> r == Err::<(), SplPaymentError>(
                SplPaymentError::NotAllowedOwner,
            ) && *final(self) == *old(self),
    {
        match guard::check_owner(caller, &self.config) {
            Err(e) => {
                return Err(e);
            },
            Ok(()) => {},
        }
        self.config.owner = new_owner;
        Ok(())
    }

    /// Looks a depositor's record up by address.
    fn find_user(&self, addr: AccountId) -> (r: Option<usize>)
        ensures
            match r {
                Some(i) => i < self.users.len() && self.users@[i as int].address == addr,
                None => !has_entry(self.users@, addr),
            },
    {
        let mut k: usize = 0;
        while k < self.users.len()
            invariant
                k <= self.users.len(),
                forall|j: int| 0 <= j < k ==> self.users@[j].address != addr,
            decreases self.users.len() - k,
        {
            if self.users[k].address == addr {
                return Some(k);
            }
            k = k + 1;
        }
        proof {
            if has_entry(self.users@, addr) {
                let i = entry_index(self.users@, addr);
                assert(self.users@[i].address == addr);
                assert(false);
            }
        }
        None
    }

    /// The depositor's current stake: their record's amount, or zero when
    /// they have never deposited.
    pub fn staked_amount(&self, addr: AccountId) -> (r: u64)
        requires
            self.wf(),
        ensures
            r == staked_of(self.users@, addr),
    {
        match self.find_user(addr) {
            Some(i) => {
                proof {
                    lemma_entry_at_index(self.users@, i as int);
                }
                self.users[i].amount
            },
            None => 0,
        }
    }

    /// Accepts `amount` of the configured asset from `user`: validates the
    /// asset and the amount, moves the funds from the depositor's wallet into
    /// the vault on the depositor's own signature, then credits the
    /// depositor's record and reports the event. A refused call changes
    /// nothing anywhere.
    pub fn deposit(
        &mut self,
        user: AccountId,
        amount: u64,
        token_mint: AccountId,
        user_wallet: &mut TokenAccount,
        now: i64,
    ) -> (r: Result<DepositEvent, VaultError>)
        requires
            old(self).wf(),
        ensures
            final(self).wf(),
            final(self).config == old(self).config,
            final(self).vault.owner == old(self).vault.owner,
            final(user_wallet).owner == old(user_wallet).owner,
            match deposit_check(
                old(self).config,
                *old(user_wallet),
                old(self).vault,
                user,
                amount,
                token_mint,
            ) {
                Err(e) => r == Err::<DepositEvent, VaultError>(e) && *final(self) == *old(self)
                    && *final(user_wallet) == *old(user_wallet),
                Ok(()) => {
                    &&& ledger_deposit_step(old(self).users@, final(self).users@, user, amount, now)
                    &&& final(user_wallet).balance == old(user_wallet).balance - amount
                    &&& final(self).vault.balance == old(self).vault.balance + amount
                    &&& r == Ok::<DepositEvent, VaultError>(
                        (DepositEvent {
                            user,
                            amount,
                            user_total_staked: staked_of(final(self).users@, user),
                            total_in_vault: final(self).vault.balance,
                            timestamp: now,
                        }),
                    )
                },
            },
    {
        match guard::check_asset(token_mint, &self.config) {
            Err(e) => {
                return Err(VaultError::Payment(e));
            },
            Ok(()) => {},
        }
        match guard::check_amount(amount) {
            Err(e) => {
                return Err(VaultError::Payment(e));
            },
            Ok(()) => {},
        }
        match token::transfer(
            user_wallet,
            &mut self.vault,
            AuthorityProof::Signature(user),
            amount,
        ) {
            Err(e) => {
                return Err(VaultError::Transfer(e));
            },
            Ok(()) => {},
        }
        // The funds are in the vault; credit the depositor's record.
        let ghost pre_users = self.users@;
        match self.find_user(user) {
            Some(i) => {
                let mut entry = self.users[i];
                proof {
                    lemma_entry_at_index(pre_users, i as int);
                    lemma_entry_le_sum(pre_users, i as int);
                }
                entry.amount = entry.amount + amount;
                entry.updated_time = now;
                self.users.set(i, entry);
                proof {
                    lemma_ledger_update(pre_users, i as int, entry);
                    lemma_sum_update(pre_users, i as int, entry);
                }
                Ok(
                    DepositEvent {
                        user,
                        amount,
                        user_total_staked: entry.amount,
                        total_in_vault: self.vault.balance,
                        timestamp: now,
                    },
                )
            },
            None => {
                let entry = UserInfo { address: user, amount, updated_time: now };
                self.users.push(entry);
                proof {
                    lemma_ledger_push(pre_users, entry);
                    lemma_sum_push(pre_users, entry);
                }
                Ok(
                    DepositEvent {
                        user,
                        amount,
                        user_total_staked: amount,
                        total_in_vault: self.vault.balance,
                        timestamp: now,
                    },
                )
            },
        }
    }

    /// Returns `amount` of the configured asset to `user`: validates the
    /// asset, the recorded stake and the amount, moves the funds from the
    /// vault into the given wallet on the vault's derived credential, then
    /// debits the depositor's record and reports the event. A refused call
    /// changes nothing anywhere.
    pub fn withdraw(
        &mut self,
        user: AccountId,
        amount: u64,
        token_mint: AccountId,
        user_wallet: &mut TokenAccount,
        now: i64,
    ) -> (r: Result<WithdrawEvent, VaultError>)
        requires
            old(self).wf(),
        ensures
            final(self).wf(),
            final(self).config == old(self).config,
            final(self).vault.owner == old(self).vault.owner,
            final(user_wallet).owner == old(user_wallet).owner,
            match withdraw_check(
                old(self).config,
                old(self).users@,
                *old(user_wallet),
                user,
                amount,
                token_mint,
            ) {
                Err(e) => r == Err::<WithdrawEvent, VaultError>(e) && *final(self) == *old(self)
                    && *final(user_wallet) == *old(user_wallet),
                Ok(()) => {
                    &&& ledger_withdraw_step(
                        old(self).users@,
                        final(self).users@,
                        user,
                        amount,
                        now,
                    )
                    &&& final(user_wallet).balance == old(user_wallet).balance + amount
                    &&& final(self).vault.balance == old(self).vault.balance - amount
                    &&& r == Ok::<WithdrawEvent, VaultError>(
                        (WithdrawEvent {
                            user,
                            amount,
                            user_total_staked: staked_of(final(self).users@, user),
                            total_in_vault: final(self).vault.balance,
                            timestamp: now,
                        }),
                    )
                },
            },
    {
        match guard::check_asset(token_mint, &self.config) {
            Err(e) => {
                return Err(VaultError::Payment(e));
            },
            Ok(()) => {},
        }
        let idx = self.find_user(user);
        let mut entry = UserInfo { address: user, amount: 0, updated_time: 0 };
        match idx {
            Some(i) => {
                entry = self.users[i];
                proof {
                    lemma_entry_at_index(self.users@, i as int);
                }
            },
            None => {},
        }
        match guard::check_sufficient_balance(amount, &entry) {
            Err(e) => {
                return Err(VaultError::Payment(e));
            },
            Ok(()) => {},
        }
        match guard::check_amount(amount) {
            Err(e) => {
                return Err(VaultError::Payment(e));
            },
            Ok(()) => {},
        }
        // The stake covers the amount and the amount is positive, so the
        // depositor's record exists and the vault's balance covers the move.
        let i: usize = match idx {
            Some(i) => i,
            None => {
                proof {
                    assert(false);
                }
                0
            },
        };
        proof {
            lemma_entry_le_sum(self.users@, i as int);
        }
        let credential = token::vault_authority();
        match token::transfer(&mut self.vault, user_wallet, credential, amount) {
            Err(e) => {
                return Err(VaultError::Transfer(e));
            },
            Ok(()) => {},
        }
        let ghost pre_users = self.users@;
        let mut new_entry = self.users[i];
        new_entry.amount = new_entry.amount - amount;
        new_entry.updated_time = now;
        self.users.set(i, new_entry);
        proof {
            lemma_ledger_update(pre_users, i as int, new_entry);
            lemma_sum_update(pre_users, i as int, new_entry);
        }
        Ok(
            WithdrawEvent {
                user,
                amount,
                user_total_staked: new_entry.amount,
                total_in_vault: self.vault.balance,
                timestamp: now,
            },
        )
    }
}

} // verus!
