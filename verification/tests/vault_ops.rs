use spl_payment::errors::SplPaymentError;
use spl_payment::errors::VaultError;
use spl_payment::events::DepositEvent;
use spl_payment::events::WithdrawEvent;
use spl_payment::token::AccountOwner;
use spl_payment::token::TokenAccount;
use spl_payment::token::TransferError;
use spl_payment::vault::PaymentVault;

const OWNER: u64 = 1;
const MINT: u64 = 7;
const VAULT_ID: u64 = 9;
const U1: u64 = 2;
const U2: u64 = 3;

fn wallet_of(user: u64, balance: u64) -> TokenAccount {
    TokenAccount { owner: AccountOwner::Key(user), balance }
}

#[test]
fn initialize_sets_config_and_vault() {
    let v = PaymentVault::initialize(OWNER, MINT, VAULT_ID, 0);
    assert_eq!(v.config.owner, OWNER);
    assert_eq!(v.config.token_mint, MINT);
    assert_eq!(v.config.vault, VAULT_ID);
    assert_eq!(v.vault.balance, 0);
    assert!(v.users.is_empty());
    assert!(matches!(v.vault.owner, AccountOwner::Derived(_)));
}

#[test]
fn first_deposit_creates_record() {
    let mut v = PaymentVault::initialize(OWNER, MINT, VAULT_ID, 0);
    let mut w = wallet_of(U1, 500);
    let r = v.deposit(U1, 100, MINT, &mut w, 11);
    assert_eq!(
        r,
        Ok(DepositEvent {
            user: U1,
            amount: 100,
            user_total_staked: 100,
            total_in_vault: 100,
            timestamp: 11,
        })
    );
    assert_eq!(v.staked_amount(U1), 100);
    assert_eq!(v.vault.balance, 100);
    assert_eq!(w.balance, 400);
    assert_eq!(v.users.len(), 1);
    assert_eq!(v.users[0].address, U1);
    assert_eq!(v.users[0].amount, 100);
    assert_eq!(v.users[0].updated_time, 11);
}

#[test]
fn deposit_event_reports_totals_with_prior_balance() {
    let mut v = PaymentVault::initialize(OWNER, MINT, VAULT_ID, 25);
    let mut w = wallet_of(U1, 500);
    let r = v.deposit(U1, 100, MINT, &mut w, 11);
    assert_eq!(
        r,
        Ok(DepositEvent {
            user: U1,
            amount: 100,
            user_total_staked: 100,
            total_in_vault: 125,
            timestamp: 11,
        })
    );
    assert_eq!(v.vault.balance, 125);
}

#[test]
fn overdraw_withdraw_fails_invalid_amount() {
    let mut v = PaymentVault::initialize(OWNER, MINT, VAULT_ID, 0);
    let mut w = wallet_of(U1, 500);
    v.deposit(U1, 100, MINT, &mut w, 11).unwrap();
    let r = v.withdraw(U1, 150, MINT, &mut w, 12);
    assert_eq!(r, Err(VaultError::Payment(SplPaymentError::InvalidAmount)));
    assert_eq!(v.staked_amount(U1), 100);
    assert_eq!(v.vault.balance, 100);
    assert_eq!(w.balance, 400);
}

#[test]
fn partial_withdraw_updates_ledger_and_event() {
    let mut v = PaymentVault::initialize(OWNER, MINT, VAULT_ID, 0);
    let mut w = wallet_of(U1, 500);
    v.deposit(U1, 100, MINT, &mut w, 11).unwrap();
    let r = v.withdraw(U1, 40, MINT, &mut w, 13);
    assert_eq!(
        r,
        Ok(WithdrawEvent {
            user: U1,
            amount: 40,
            user_total_staked: 60,
            total_in_vault: 60,
            timestamp: 13,
        })
    );
    assert_eq!(v.staked_amount(U1), 60);
    assert_eq!(v.vault.balance, 60);
    assert_eq!(w.balance, 440);
    assert_eq!(v.users[0].updated_time, 13);
}

#[test]
fn wrong_asset_deposit_fails() {
    let mut v = PaymentVault::initialize(OWNER, MINT, VAULT_ID, 0);
    let mut w = wallet_of(U1, 500);
    let r = v.deposit(U1, 100, MINT + 1, &mut w, 11);
    assert_eq!(r, Err(VaultError::Payment(SplPaymentError::InvalidTokenAddress)));
    assert_eq!(v.vault.balance, 0);
    assert_eq!(w.balance, 500);
    assert!(v.users.is_empty());
}

#[test]
fn wrong_asset_withdraw_fails() {
    let mut v = PaymentVault::initialize(OWNER, MINT, VAULT_ID, 0);
    let mut w = wallet_of(U1, 500);
    v.deposit(U1, 100, MINT, &mut w, 11).unwrap();
    let r = v.withdraw(U1, 40, MINT + 1, &mut w, 12);
    assert_eq!(r, Err(VaultError::Payment(SplPaymentError::InvalidTokenAddress)));
    assert_eq!(v.staked_amount(U1), 100);
    assert_eq!(v.vault.balance, 100);
    assert_eq!(w.balance, 400);
}

#[test]
fn zero_deposit_fails() {
    let mut v = PaymentVault::initialize(OWNER, MINT, VAULT_ID, 0);
    let mut w = wallet_of(U1, 500);
    let r = v.deposit(U1, 0, MINT, &mut w, 11);
    assert_eq!(r, Err(VaultError::Payment(SplPaymentError::ZeroAmount)));
    assert_eq!(w.balance, 500);
    assert!(v.users.is_empty());
}

#[test]
fn zero_withdraw_fails() {
    let mut v = PaymentVault::initialize(OWNER, MINT, VAULT_ID, 0);
    let mut w = wallet_of(U1, 500);
    v.deposit(U1, 100, MINT, &mut w, 11).unwrap();
    let r = v.withdraw(U1, 0, MINT, &mut w, 12);
    assert_eq!(r, Err(VaultError::Payment(SplPaymentError::ZeroAmount)));
    assert_eq!(v.staked_amount(U1), 100);
}

#[test]
fn update_owner_by_owner_succeeds() {
    let mut v = PaymentVault::initialize(OWNER, MINT, VAULT_ID, 0);
    let r = v.update_owner(OWNER, U2);
    assert_eq!(r, Ok(()));
    assert_eq!(v.config.owner, U2);
    assert_eq!(v.config.token_mint, MINT);
    assert_eq!(v.config.vault, VAULT_ID);
}

#[test]
fn update_owner_by_stranger_fails() {
    let mut v = PaymentVault::initialize(OWNER, MINT, VAULT_ID, 0);
    let r = v.update_owner(U1, U1);
    assert_eq!(r, Err(SplPaymentError::NotAllowedOwner));
    assert_eq!(v.config.owner, OWNER);
}

#[test]
fn old_owner_loses_role_after_handover() {
    let mut v = PaymentVault::initialize(OWNER, MINT, VAULT_ID, 0);
    v.update_owner(OWNER, U2).unwrap();
    let r = v.update_owner(OWNER, OWNER);
    assert_eq!(r, Err(SplPaymentError::NotAllowedOwner));
    assert_eq!(v.config.owner, U2);
}

#[test]
fn deposit_insufficient_wallet_leaves_state() {
    let mut v = PaymentVault::initialize(OWNER, MINT, VAULT_ID, 0);
    let mut w = wallet_of(U1, 30);
    let r = v.deposit(U1, 100, MINT, &mut w, 11);
    assert_eq!(r, Err(VaultError::Transfer(TransferError::InsufficientFunds)));
    assert_eq!(w.balance, 30);
    assert_eq!(v.vault.balance, 0);
    assert!(v.users.is_empty());
}

#[test]
fn deposit_from_foreign_wallet_not_authorized() {
    let mut v = PaymentVault::initialize(OWNER, MINT, VAULT_ID, 0);
    let mut w = wallet_of(U2, 500);
    let r = v.deposit(U1, 100, MINT, &mut w, 11);
    assert_eq!(r, Err(VaultError::Transfer(TransferError::NotAuthorized)));
    assert_eq!(w.balance, 500);
    assert_eq!(v.vault.balance, 0);
}

#[test]
fn deposit_accumulates_across_calls() {
    let mut v = PaymentVault::initialize(OWNER, MINT, VAULT_ID, 0);
    let mut w = wallet_of(U1, 500);
    v.deposit(U1, 100, MINT, &mut w, 11).unwrap();
    let r = v.deposit(U1, 50, MINT, &mut w, 12);
    assert_eq!(
        r,
        Ok(DepositEvent {
            user: U1,
            amount: 50,
            user_total_staked: 150,
            total_in_vault: 150,
            timestamp: 12,
        })
    );
    assert_eq!(v.staked_amount(U1), 150);
    assert_eq!(v.users.len(), 1);
}

#[test]
fn two_depositors_tracked_independently() {
    let mut v = PaymentVault::initialize(OWNER, MINT, VAULT_ID, 0);
    let mut w1 = wallet_of(U1, 500);
    let mut w2 = wallet_of(U2, 500);
    v.deposit(U1, 100, MINT, &mut w1, 11).unwrap();
    v.deposit(U2, 70, MINT, &mut w2, 12).unwrap();
    v.withdraw(U1, 30, MINT, &mut w1, 13).unwrap();
    assert_eq!(v.staked_amount(U1), 70);
    assert_eq!(v.staked_amount(U2), 70);
    assert_eq!(v.vault.balance, 140);
    assert_eq!(v.users.len(), 2);
}

#[test]
fn withdraw_to_zero_keeps_record() {
    let mut v = PaymentVault::initialize(OWNER, MINT, VAULT_ID, 0);
    let mut w = wallet_of(U1, 500);
    v.deposit(U1, 100, MINT, &mut w, 11).unwrap();
    v.withdraw(U1, 100, MINT, &mut w, 12).unwrap();
    assert_eq!(v.staked_amount(U1), 0);
    assert_eq!(v.users.len(), 1);
    assert_eq!(v.users[0].address, U1);
    assert_eq!(v.users[0].amount, 0);
    assert_eq!(v.users[0].updated_time, 12);
    assert_eq!(w.balance, 500);
}

#[test]
fn withdraw_by_unknown_depositor_fails_invalid_amount() {
    let mut v = PaymentVault::initialize(OWNER, MINT, VAULT_ID, 50);
    let mut w = wallet_of(U1, 500);
    let r = v.withdraw(U1, 10, MINT, &mut w, 11);
    assert_eq!(r, Err(VaultError::Payment(SplPaymentError::InvalidAmount)));
    assert_eq!(v.vault.balance, 50);
    assert_eq!(w.balance, 500);
}

#[test]
fn deposit_overflowing_vault_fails() {
    let mut v = PaymentVault::initialize(OWNER, MINT, VAULT_ID, u64::MAX);
    let mut w = wallet_of(U1, 500);
    let r = v.deposit(U1, 1, MINT, &mut w, 11);
    assert_eq!(r, Err(VaultError::Transfer(TransferError::Overflow)));
    assert_eq!(v.vault.balance, u64::MAX);
    assert_eq!(w.balance, 500);
}

#[test]
fn withdraw_overflowing_wallet_fails() {
    let mut v = PaymentVault::initialize(OWNER, MINT, VAULT_ID, 0);
    let mut w = wallet_of(U1, 10);
    v.deposit(U1, 10, MINT, &mut w, 11).unwrap();
    w.balance = u64::MAX;
    let r = v.withdraw(U1, 5, MINT, &mut w, 12);
    assert_eq!(r, Err(VaultError::Transfer(TransferError::Overflow)));
    assert_eq!(v.staked_amount(U1), 10);
    assert_eq!(v.vault.balance, 10);
    assert_eq!(w.balance, u64::MAX);
}

#[test]
fn vault_always_covers_total_staked() {
    let mut v = PaymentVault::initialize(OWNER, MINT, VAULT_ID, 25);
    let mut w1 = wallet_of(U1, 500);
    let mut w2 = wallet_of(U2, 500);
    v.deposit(U1, 100, MINT, &mut w1, 1).unwrap();
    v.deposit(U2, 200, MINT, &mut w2, 2).unwrap();
    v.withdraw(U1, 60, MINT, &mut w1, 3).unwrap();
    v.deposit(U1, 5, MINT, &mut w1, 4).unwrap();
    v.withdraw(U2, 200, MINT, &mut w2, 5).unwrap();
    let _ = v.withdraw(U1, 999, MINT, &mut w1, 6);
    let _ = v.deposit(U1, 0, MINT, &mut w1, 7);
    let total: u64 = v.users.iter().map(|u| u.amount).sum();
    assert_eq!(total, 45);
    assert!(total <= v.vault.balance);
    assert_eq!(v.vault.balance, 70);
}
