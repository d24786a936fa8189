//! The bookkeeper: the accounts of all clients, and the routing of each
//! transaction to the account of its client.

use super::account::{Account, AccountState, Balance, TxError};
use super::transaction::{Transaction, TransactionView, TxType};
use std::collections::hash_map::Entry;
use std::collections::HashMap;
use vstd::prelude::*;
use vstd::std_specs::iter::IteratorSpec;

verus! {

broadcast use vstd::std_specs::hash::group_hash_axioms;

const DEFAULT_ACCOUNT_COUNT: usize = 4086;

/// The accounts after a transaction was routed, and whether the transaction
/// was accepted.
pub struct Routed {
    pub accounts: Map<u16, AccountState>,
    pub result: Result<(), TxError>,
}

/// What routing `tx` does to `accounts`. A known client's account takes the
/// transaction. For an unknown client, a deposit opens an account, which
/// stays even where the deposit itself is refused; any other transaction is
/// refused with `InvalidClientError` and opens nothing.
pub open spec fn route(accounts: Map<u16, AccountState>, tx: TransactionView) -> Routed {
    if accounts.contains_key(tx.client_id) {
        let outcome = accounts[tx.client_id].apply(tx);
        Routed { accounts: accounts.insert(tx.client_id, outcome.state), result: outcome.result }
    } else if tx.kind == TxType::Deposit {
        let outcome = AccountState::opened(tx.client_id).apply(tx);
        Routed { accounts: accounts.insert(tx.client_id, outcome.state), result: outcome.result }
    } else {
        Routed { accounts, result: Err(TxError::InvalidClientError) }
    }
}

/// The accounts of all clients, by client id.
pub struct Bookkeeper {
    pub accounts: HashMap<u16, Account>,
}

impl View for Bookkeeper {
    type V = Map<u16, AccountState>;

    open spec fn view(&self) -> Map<u16, AccountState> {
        Map::new(|id: u16| self.accounts@.contains_key(id), |id: u16| self.accounts@[id]@)
    }
}

impl Bookkeeper {
    /// Every account is well formed and is kept under its own client id.
    pub open spec fn wf(&self) -> bool {
        forall|id: u16| #[trigger]
            self.accounts@.contains_key(id) ==> self.accounts@[id].wf() && self.accounts@[id].client_id
                == id
    }

    /// A bookkeeper without accounts.
    pub fn new() -> (bookkeeper: Bookkeeper)
        ensures
            bookkeeper.wf(),
            bookkeeper@ == Map::<u16, AccountState>::empty(),
    {
        let bookkeeper = Bookkeeper { accounts: HashMap::with_capacity(DEFAULT_ACCOUNT_COUNT) };
        bookkeeper
    }

    /// Routes one transaction to the account of its client.
    pub fn on_tx(&mut self, tx: &Transaction) -> (result: Result<(), TxError>)
        requires
            old(self).wf(),
        ensures
            final(self).wf(),
            (Routed { accounts: final(self)@, result }) == route(old(self)@, tx@),
    {
        let result = match self.accounts.entry(tx.client_id) {
            Entry::Occupied(mut known) => known.get_mut().on_tx(tx),
            Entry::Vacant(unknown) => match tx.kind {
                TxType::Deposit => unknown.insert(Account::new(tx.client_id)).on_tx(tx),
                _ => Err(TxError::InvalidClientError),
            },
        };
        assert(self@ =~= route(old(self)@, tx@).accounts);
        result
    }

    /// The balances of every account, one row for each, in no particular
    /// order.
    pub fn report_balance(&self) -> (rows: Vec<Balance>)
        requires
            self.wf(),
        ensures
            rows@.len() == self.accounts@.len(),
            forall|i: int|
                0 <= i < rows@.len() ==> self.accounts@.contains_key(#[trigger] rows@[i].client_id)
                    && rows@[i] == self.accounts@[rows@[i].client_id].balance(),
            forall|i: int, j: int|
                0 <= i < j < rows@.len() ==> rows@[i].client_id != rows@[j].client_id,
            forall|id: u16| #[trigger]
                self.accounts@.contains_key(id) ==> rows@.contains(self.accounts@[id].balance()),
            forall|i: int| 0 <= i < rows@.len() ==> (#[trigger] rows@[i]).is_fixed(),
    {
        let mut rows: Vec<Balance> = Vec::new();
        let ghost entries = self.accounts.iter().remaining();
        for entry in it: self.accounts.iter()
            invariant
                it.seq() == entries,
                rows@.len() == it.index(),
                forall|i: int|
                    0 <= i < rows@.len() ==> #[trigger] rows@[i] == (*entries[i].1).balance(),
        {
            rows.push(entry.1.balance());
        }
        proof {
            assert forall|i: int, j: int| 0 <= i < j < rows@.len() implies rows@[i].client_id
                != rows@[j].client_id by {
                assert(self.accounts@.contains_key(*entries[i].0));
                assert(self.accounts@.contains_key(*entries[j].0));
            }
            assert forall|i: int| 0 <= i < rows@.len() implies self.accounts@.contains_key(
                #[trigger] rows@[i].client_id,
            ) && rows@[i] == self.accounts@[rows@[i].client_id].balance() by {
                assert(self.accounts@.contains_key(*entries[i].0));
            }
            assert forall|i: int| 0 <= i < rows@.len() implies (#[trigger] rows@[i]).is_fixed() by {
                assert(self.accounts@.contains_key(*entries[i].0));
            }
            assert forall|id: u16| #[trigger] self.accounts@.contains_key(id) implies rows@.contains(
                self.accounts@[id].balance(),
            ) by {
                let i = entries.index_of((&id, &self.accounts@[id]));
                assert(rows@[i] == self.accounts@[id].balance());
            }
        }
        rows
    }
}

impl Default for Bookkeeper {
    fn default() -> (bookkeeper: Self)
        ensures
            bookkeeper.wf(),
            bookkeeper@ == Map::<u16, AccountState>::empty(),
    {
        Self::new()
    }
}

} // verus!
