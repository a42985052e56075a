use vstd::prelude::*;

verus! {

use crate::constants::GLOBAL_STATE_SEED;
use crate::state::AccountId;

/// The custody authority recorded on a token account: either a holder's
/// signing key, or a credential namespace controlled programmatically.
#[derive(Clone, Copy, Debug, PartialEq, Eq, Structural)]
pub enum AccountOwner {
    /// A holder who authorizes transfers by signing with this key.
    Key(AccountId),
    /// A derived, non-human authority: transfers out are authorized by
    /// recomputing the credential for this namespace, never by a stored key.
    Derived(u64),
}

/// Proof of authority presented alongside a transfer.
#[derive(Clone, Copy, Debug, PartialEq, Eq, Structural)]
pub enum AuthorityProof {
    /// The holder of this key signed the request.
    Signature(AccountId),
    /// A credential recomputed from a derivation namespace.
    Derived(u64),
}

/// A fungible-asset custody account: who may move funds out, and the balance held.
#[derive(Clone, Copy, Debug, PartialEq, Eq, Structural)]
pub struct TokenAccount {
    pub owner: AccountOwner,
    pub balance: u64,
}

/// Failures of the transfer primitive itself.
#[derive(Clone, Copy, Debug, PartialEq, Eq, Structural)]
pub enum TransferError {
    /// The presented proof does not match the source account's owner.
    NotAuthorized,
    /// The source account holds less than the requested amount.
    InsufficientFunds,
    /// The destination account cannot hold the resulting balance.
    Overflow,
}

/// A proof authorizes movement out of an account exactly when it matches the
/// account's recorded owner: a signature for a keyed owner, a recomputed
/// credential for a derived one.
pub open spec fn authorizes(proof: AuthorityProof, owner: AccountOwner) -> bool {
    match (proof, owner) {
        (AuthorityProof::Signature(k), AccountOwner::Key(o)) => k == o,
        (AuthorityProof::Derived(n), AccountOwner::Derived(m)) => n == m,
        _ => false,
    }
}

/// Exactly how a transfer request is adjudicated, in the order the checks run.
pub open spec fn transfer_check(
    from: TokenAccount,
    to: TokenAccount,
    proof: AuthorityProof,
    amount: u64,
) -> Result<(), TransferError> {
    if !authorizes(proof, from.owner) {
        Err(TransferError::NotAuthorized)
    } else if from.balance < amount {
        Err(TransferError::InsufficientFunds)
    } else if to.balance + amount > u64::MAX {
        Err(TransferError::Overflow)
    } else {
        Ok(())
    }
}

/// Runtime form of `authorizes`.
pub fn authorized(proof: AuthorityProof, owner: AccountOwner) -> (b: bool)
    ensures
        b == authorizes(proof, owner),
{
    match (proof, owner) {
        (AuthorityProof::Signature(k), AccountOwner::Key(o)) => k == o,
        (AuthorityProof::Derived(n), AccountOwner::Derived(m)) => n == m,
        _ => false,
    }
}

/// The vault's signing credential, derived from the fixed namespace on demand.
pub fn vault_authority() -> (p: AuthorityProof)
    ensures
        p == AuthorityProof::Derived(GLOBAL_STATE_SEED),
{
    AuthorityProof::Derived(GLOBAL_STATE_SEED)
}

/// The transfer primitive: atomically moves `amount` from `from` to `to` when
/// the proof matches `from`'s owner, the funds suffice, and the destination
/// balance does not overflow; otherwise it changes nothing and reports why.
pub fn transfer(
    from: &mut TokenAccount,
    to: &mut TokenAccount,
    proof: AuthorityProof,
    amount: u64,
) -> (r: Result<(), TransferError>)
    ensures
        r == transfer_check(*old(from), *old(to), proof, amount),
        r is Ok ==> final(from).balance == old(from).balance - amount
            && final(to).balance == old(to).balance + amount,
        r is Err ==> *final(from) == *old(from) && *final(to) == *old(to),
        final(from).owner == old(from).owner,
        final(to).owner == old(to).owner,
{
    if !authorized(proof, from.owner) {
        return Err(TransferError::NotAuthorized);
    }
    if from.balance < amount {
        return Err(TransferError::InsufficientFunds);
    }
    if to.balance > u64::MAX - amount {
        return Err(TransferError::Overflow);
    }
    from.balance = from.balance - amount;
    to.balance = to.balance + amount;
    Ok(())
}

} // verus!
