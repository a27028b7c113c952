//! A custodial staking ledger: pooled vaults, per-user staking accounts,
//! deterministic address derivation, and checked deposit/withdraw
//! transitions whose accounting is proved to conserve custody.

pub mod addresses;
pub mod errors;
pub mod laws;
pub mod ledger;
pub mod state;
