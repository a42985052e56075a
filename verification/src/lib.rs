//! A custodial token-vault ledger: deposits of one fungible asset pool in a
//! vault account, each depositor's stake is tracked in a per-user record, and
//! withdrawals move funds back out up to the recorded stake. An owner role can
//! be handed over by the current owner. Every state-mutating operation is
//! gated by the authorization checks in `guard`, and the vault's custody sits
//! under a derived signing credential that only the vault's own logic presents.

pub mod constants;
pub mod errors;
pub mod events;
pub mod guard;
pub mod ledger;
pub mod laws;
pub mod state;
pub mod token;
pub mod vault;
