//! Transactions as they reach the ledger, already decoded.

use super::amount::{Amount, AmountView};
use vstd::prelude::*;

verus! {

/// The five kinds of transaction.
#[derive(Debug, Clone, Copy, PartialEq, Eq, Structural)]
pub enum TxType {
    Deposit,
    Withdrawal,
    Dispute,
    Resolve,
    ChargeBack,
}

/// One transaction of one client. A deposit or a withdrawal carries an
/// amount; for the other kinds the amount is ignored.
#[derive(Debug, Clone, Copy)]
pub struct Transaction {
    pub kind: TxType,
    pub client_id: u16,
    pub tx_id: u32,
    pub amount: Option<Amount>,
}

/// A transaction with its amount as a number.
pub struct TransactionView {
    pub kind: TxType,
    pub client_id: u16,
    pub tx_id: u32,
    pub amount: Option<AmountView>,
}

impl View for Transaction {
    type V = TransactionView;

    open spec fn view(&self) -> TransactionView {
        TransactionView {
            kind: self.kind,
            client_id: self.client_id,
            tx_id: self.tx_id,
            amount: match self.amount {
                Some(a) => Some(a@),
                None => None,
            },
        }
    }
}

} // verus!
