use vstd::prelude::*;

verus! {

/// Namespace tag from which the vault's signing credential is derived.
/// The credential is recomputed from this tag whenever it is needed; no
/// private key for the vault is ever stored.
pub const GLOBAL_STATE_SEED: u64 = 0x474c4f42414c5354;

} // verus!
