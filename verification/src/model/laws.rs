//! What holds of every account, whatever transactions reach it.

use super::account::{AccountState, DepositRecord, DepositStatus, TxError};
use super::bookkeeper::{route, Routed};
use super::amount::{lemma_fixed_sign, lemma_fixed_within};
use super::transaction::{TransactionView, TxType};
use vstd::prelude::*;

verus! {

impl AccountState {
    /// The account after the transactions `txs`, applied in order.
    pub open spec fn after(self, txs: Seq<TransactionView>) -> AccountState
        decreases txs.len(),
    {
        if txs.len() == 0 {
            self
        } else {
            self.after(txs.drop_last()).apply(txs.last()).state
        }
    }
}

/// What the deposit `id` adds to the held balance: its amount while it is
/// disputed, nothing otherwise.
pub open spec fn held_by(deposits: Map<u32, DepositRecord>, id: u32) -> int {
    if deposits.contains_key(id) && deposits[id].status == DepositStatus::Disputed {
        deposits[id].amount
    } else {
        0
    }
}

/// What the deposits with an id below `bound` add to the held balance.
pub open spec fn held_below(deposits: Map<u32, DepositRecord>, bound: nat) -> int
    decreases bound,
{
    if bound == 0 {
        0
    } else {
        held_below(deposits, (bound - 1) as nat) + held_by(deposits, (bound - 1) as u32)
    }
}

/// The sum of the amounts of all disputed deposits.
pub open spec fn held_in_dispute(deposits: Map<u32, DepositRecord>) -> int {
    held_below(deposits, 0x1_0000_0000)
}

impl AccountState {
    /// What holds of an account besides the invariant of the balances, once
    /// it was opened and only transactions changed it: what is held is the
    /// sum of the disputed deposits, and an account with a deposit that was
    /// charged back is locked.
    pub open spec fn consistent(self) -> bool {
        &&& self.inv()
        &&& self.held == held_in_dispute(self.deposits)
        &&& forall|id: u32| #[trigger]
            self.deposits.contains_key(id) && self.deposits[id].status
                == DepositStatus::ChargedBack ==> self.locked
    }
}

/// `later` is `earlier`, or a status that follows it in the lifecycle of a
/// deposit: normal, then disputed, then resolved or charged back.
pub open spec fn moves_forward(earlier: DepositStatus, later: DepositStatus) -> bool {
    ||| later == earlier
    ||| earlier == DepositStatus::Normal && later == DepositStatus::Disputed
    ||| earlier == DepositStatus::Disputed && later == DepositStatus::Resolved
    ||| earlier == DepositStatus::Disputed && later == DepositStatus::ChargedBack
}

/// A new account has no funds, and its total is the sum of what is available
/// and what is held.
pub proof fn lemma_opened_invariant(client_id: u16)
    ensures
        AccountState::opened(client_id).inv(),
{
}

/// Whatever the transaction, and whether it is accepted or refused, the
/// total stays the sum of what is available and what is held, and no balance
/// becomes negative.
pub proof fn lemma_apply_keeps_invariant(state: AccountState, tx: TransactionView)
    requires
        state.inv(),
    ensures
        state.apply(tx).state.inv(),
{
    if tx.amount is Some && tx.amount.unwrap().mantissa > 0 {
        if tx.amount.unwrap().fixed() is Some {
            lemma_fixed_sign(tx.amount.unwrap());
        }
        if tx.kind == TxType::Withdrawal && !state.available_amount().less_than(tx.amount.unwrap()) {
            lemma_fixed_within(tx.amount.unwrap(), state.available);
        }
    }
}

/// The invariant of the balances holds after any sequence of transactions.
pub proof fn lemma_after_keeps_invariant(state: AccountState, txs: Seq<TransactionView>)
    requires
        state.inv(),
    ensures
        state.after(txs).inv(),
    decreases txs.len(),
{
    if txs.len() > 0 {
        lemma_after_keeps_invariant(state, txs.drop_last());
        lemma_apply_keeps_invariant(state.after(txs.drop_last()), txs.last());
    }
}

/// A transaction that is refused leaves the account exactly as it was.
pub proof fn lemma_refused_changes_nothing(state: AccountState, tx: TransactionView)
    requires
        state.apply(tx).result is Err,
    ensures
        state.apply(tx).state == state,
{
}

/// A deposit that was accepted is refused when it comes a second time, with
/// `InvalidTxIdError`, and the second call changes nothing.
pub proof fn lemma_deposit_replay(state: AccountState, tx: TransactionView)
    requires
        tx.kind == TxType::Deposit,
        state.apply(tx).result is Ok,
    ensures
        state.apply(tx).state.apply(tx) == state.apply(tx).state.rejected(
            TxError::InvalidTxIdError,
        ),
{
}

/// An account never forgets a deposit, and no deposit is accepted under an
/// id that the account remembers.
pub proof fn lemma_deposit_id_used_once(state: AccountState, tx: TransactionView, id: u32)
    requires
        state.deposits.contains_key(id),
    ensures
        state.apply(tx).state.deposits.contains_key(id),
        tx.kind == TxType::Deposit && tx.tx_id == id ==> state.apply(tx).result is Err,
{
}

/// The status of a deposit only moves forward: a transaction leaves it as it
/// is, or takes it from normal to disputed, or from disputed to resolved or
/// charged back. The amount of the deposit never changes.
pub proof fn lemma_status_moves_forward(state: AccountState, tx: TransactionView, id: u32)
    requires
        state.deposits.contains_key(id),
    ensures
        moves_forward(state.deposits[id].status, state.apply(tx).state.deposits[id].status),
        state.apply(tx).state.deposits[id].amount == state.deposits[id].amount,
{
}

/// A deposit is disputed at most once: after its dispute was accepted, a
/// second dispute is refused with `InvalidOperatioonError`.
pub proof fn lemma_dispute_once(state: AccountState, tx: TransactionView)
    requires
        tx.kind == TxType::Dispute,
        state.apply(tx).result is Ok,
    ensures
        state.apply(tx).state.apply(tx) == state.apply(tx).state.rejected(
            TxError::InvalidOperatioonError,
        ),
{
}

/// A deposit that was resolved or charged back is never disputed again,
/// whatever happened in between.
pub proof fn lemma_closed_dispute_is_final(
    state: AccountState,
    txs: Seq<TransactionView>,
    id: u32,
)
    requires
        state.deposits.contains_key(id),
        state.deposits[id].status == DepositStatus::Resolved || state.deposits[id].status
            == DepositStatus::ChargedBack,
    ensures
        state.after(txs).deposits.contains_key(id),
        state.after(txs).deposits[id] == state.deposits[id],
    decreases txs.len(),
{
    if txs.len() > 0 {
        lemma_closed_dispute_is_final(state, txs.drop_last(), id);
        lemma_status_moves_forward(state.after(txs.drop_last()), txs.last(), id);
    }
}

/// On an account that is not locked, a resolve or a chargeback of a deposit
/// that is not under dispute (never disputed, or already resolved or charged
/// back) is refused with `InvalidOperatioonError`.
pub proof fn lemma_resolution_needs_dispute(state: AccountState, tx: TransactionView)
    requires
        !state.locked,
        tx.kind == TxType::Resolve || tx.kind == TxType::ChargeBack,
        state.deposits.contains_key(tx.tx_id),
        state.deposits[tx.tx_id].status != DepositStatus::Disputed,
    ensures
        state.apply(tx) == state.rejected(TxError::InvalidOperatioonError),
{
}

/// A chargeback that is accepted locks the account.
pub proof fn lemma_chargeback_locks(state: AccountState, tx: TransactionView)
    requires
        tx.kind == TxType::ChargeBack,
        state.apply(tx).result is Ok,
    ensures
        state.apply(tx).state.locked,
{
}

/// A locked account refuses every transaction with `LockedAccountError` and
/// stays as it is.
pub proof fn lemma_locked_refuses(state: AccountState, tx: TransactionView)
    requires
        state.locked,
    ensures
        state.apply(tx) == state.rejected(TxError::LockedAccountError),
{
}

/// Nothing unlocks an account: after any sequence of transactions a locked
/// account is what it was.
pub proof fn lemma_locked_forever(state: AccountState, txs: Seq<TransactionView>)
    requires
        state.locked,
    ensures
        state.after(txs) == state,
    decreases txs.len(),
{
    if txs.len() > 0 {
        lemma_locked_forever(state, txs.drop_last());
        lemma_locked_refuses(state, txs.last());
    }
}

/// Changing the record of one deposit changes the sum of what is held by
/// what that deposit adds to it.
pub proof fn lemma_held_below_insert(
    deposits: Map<u32, DepositRecord>,
    id: u32,
    record: DepositRecord,
    bound: nat,
)
    requires
        bound <= 0x1_0000_0000,
    ensures
        held_below(deposits.insert(id, record), bound) == held_below(deposits, bound) + (if id
            < bound {
            held_by(deposits.insert(id, record), id) - held_by(deposits, id)
        } else {
            0
        }),
    decreases bound,
{
    if bound > 0 {
        lemma_held_below_insert(deposits, id, record, (bound - 1) as nat);
    }
}

/// Where no amount is negative, no deposit holds more than all of them
/// together.
pub proof fn lemma_held_below_bounds(deposits: Map<u32, DepositRecord>, id: u32, bound: nat)
    requires
        forall|other: u32| #[trigger] deposits.contains_key(other) ==> 0 <= deposits[other].amount,
        bound <= 0x1_0000_0000,
    ensures
        0 <= held_below(deposits, bound),
        id < bound ==> held_by(deposits, id) <= held_below(deposits, bound),
    decreases bound,
{
    if bound > 0 {
        lemma_held_below_bounds(deposits, id, (bound - 1) as nat);
    }
}

/// Nothing is held in a new account.
pub proof fn lemma_opened_consistent(client_id: u16)
    ensures
        AccountState::opened(client_id).consistent(),
{
    lemma_nothing_held(Map::empty(), 0x1_0000_0000);
}

/// Where no deposit is disputed, nothing is held.
pub proof fn lemma_nothing_held(deposits: Map<u32, DepositRecord>, bound: nat)
    requires
        forall|id: u32| #[trigger]
            deposits.contains_key(id) ==> deposits[id].status != DepositStatus::Disputed,
    ensures
        held_below(deposits, bound) == 0,
    decreases bound,
{
    if bound > 0 {
        lemma_nothing_held(deposits, (bound - 1) as nat);
    }
}

/// A transaction keeps what is held equal to the sum of the disputed
/// deposits, and leaves no deposit charged back in an account that is not
/// locked.
pub proof fn lemma_apply_keeps_consistent(state: AccountState, tx: TransactionView)
    requires
        state.consistent(),
    ensures
        state.apply(tx).state.consistent(),
{
    lemma_apply_keeps_invariant(state, tx);
    let next = state.apply(tx).state;
    if state.apply(tx).result is Ok && tx.kind != TxType::Withdrawal {
        lemma_held_below_insert(state.deposits, tx.tx_id, next.deposits[tx.tx_id], 0x1_0000_0000);
    }
}

/// An account that was opened and then changed by transactions alone holds
/// exactly the sum of its disputed deposits.
pub proof fn lemma_history_is_consistent(client_id: u16, txs: Seq<TransactionView>)
    ensures
        AccountState::opened(client_id).after(txs).consistent(),
    decreases txs.len(),
{
    if txs.len() == 0 {
        lemma_opened_consistent(client_id);
    } else {
        lemma_history_is_consistent(client_id, txs.drop_last());
        lemma_apply_keeps_consistent(
            AccountState::opened(client_id).after(txs.drop_last()),
            txs.last(),
        );
    }
}

/// In an account that holds the sum of its disputed deposits and is not
/// locked, a dispute can always be closed: the resolve and the chargeback of
/// a disputed deposit are accepted.
pub proof fn lemma_dispute_can_be_closed(state: AccountState, tx: TransactionView)
    requires
        state.consistent(),
        !state.locked,
        tx.kind == TxType::Resolve || tx.kind == TxType::ChargeBack,
        state.deposits.contains_key(tx.tx_id),
        state.deposits[tx.tx_id].status == DepositStatus::Disputed,
    ensures
        state.apply(tx).result is Ok,
{
    lemma_held_below_bounds(state.deposits, tx.tx_id, 0x1_0000_0000);
}

/// Every account satisfies the invariant of the balances and is kept under
/// the id of its client.
pub open spec fn all_valid(accounts: Map<u16, AccountState>) -> bool {
    forall|id: u16| #[trigger]
        accounts.contains_key(id) ==> accounts[id].inv() && accounts[id].client_id == id
}

/// Whatever transaction is routed, every account still satisfies the
/// invariant of the balances afterwards.
pub proof fn lemma_route_keeps_invariant(accounts: Map<u16, AccountState>, tx: TransactionView)
    requires
        all_valid(accounts),
    ensures
        all_valid(route(accounts, tx).accounts),
{
    if accounts.contains_key(tx.client_id) {
        lemma_apply_keeps_invariant(accounts[tx.client_id], tx);
    } else {
        lemma_apply_keeps_invariant(AccountState::opened(tx.client_id), tx);
    }
}

/// A transaction changes no account but that of its client, and no account
/// is ever closed.
pub proof fn lemma_route_is_confined(
    accounts: Map<u16, AccountState>,
    tx: TransactionView,
    other: u16,
)
    requires
        other != tx.client_id,
    ensures
        route(accounts, tx).accounts.contains_key(other) == accounts.contains_key(other),
        accounts.contains_key(other) ==> route(accounts, tx).accounts[other] == accounts[other],
        accounts.contains_key(tx.client_id) ==> route(accounts, tx).accounts.contains_key(
            tx.client_id,
        ),
{
}

/// A transaction other than a deposit that names an unknown client is
/// refused with `InvalidClientError`, and no account is opened for it.
pub proof fn lemma_unknown_client(accounts: Map<u16, AccountState>, tx: TransactionView)
    requires
        !accounts.contains_key(tx.client_id),
        tx.kind != TxType::Deposit,
    ensures
        route(accounts, tx) == (Routed { accounts, result: Err(TxError::InvalidClientError) }),
{
}

/// A transaction that is refused leaves every account that existed as it
/// was.
pub proof fn lemma_refused_route_changes_no_account(
    accounts: Map<u16, AccountState>,
    tx: TransactionView,
    id: u16,
)
    requires
        route(accounts, tx).result is Err,
        accounts.contains_key(id),
    ensures
        route(accounts, tx).accounts[id] == accounts[id],
{
}

} // verus!
