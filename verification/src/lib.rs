//! A per-client ledger: deposits, withdrawals and the dispute lifecycle of
//! deposits, applied one transaction at a time under balance invariants.

pub mod model;
pub mod usage;

pub use usage::print_usage;
