//! State engine of a dual-currency wallet and staking service: balances,
//! staking pools with lazily evaluated rewards, achievements and
//! wallet-authenticated sessions, with every operation verified against its
//! contract.
pub mod achievements;
pub mod convert;
pub mod ledger;
pub mod session;
pub mod staking;
pub mod state;
pub mod types;
