//! The ledger's data model: amounts, transactions, accounts and the
//! bookkeeper that routes transactions to accounts.

pub mod amount;
mod decimal;
pub mod transaction;
pub mod account;
pub mod bookkeeper;
pub mod laws;
pub mod record;

pub use account::{Account, Balance, TxError};
pub use amount::Amount;
pub use bookkeeper::Bookkeeper;
pub use transaction::{Transaction, TxType};
