//! One client's account: its balances, the deposits it remembers and the
//! rules by which a transaction changes them.

use super::amount::{
    fits, lemma_fixed_sign, lemma_fixed_within, lemma_pow10_adds, lemma_pow10_fixed, pow10, Amount,
    AmountView, FIXED_SCALE, MAX_MANTISSA,
};
use super::decimal::{checked_add, checked_sub, greater_than, rescale};
use super::transaction::{Transaction, TransactionView, TxType};
use std::collections::{HashMap, HashSet};
use vstd::prelude::*;

verus! {

broadcast use vstd::std_specs::hash::group_hash_axioms;

const DEFAULT_COUNT: usize = 8096;

/// Why a transaction was refused.
#[derive(Debug, Clone, Copy, PartialEq, Eq, Structural)]
pub enum TxError {
    /// A transaction other than a deposit names a client without an account.
    InvalidClientError,
    /// A deposit or a withdrawal carries no amount.
    MissingAmountError,
    /// The amount is not positive, exceeds the funds it draws on, or leads
    /// out of the range of a balance.
    InvalidAmountError,
    /// The transaction id is unknown, or was used before.
    InvalidTxIdError,
    /// A record could not be read.
    InvaidFormatError,
    /// The account is locked.
    LockedAccountError,
    /// The deposit named is not in the status that the transaction needs.
    InvalidOperatioonError,
}

/// Where a deposit stands in the dispute lifecycle.
#[derive(Debug, Clone, Copy, PartialEq, Eq, Structural)]
pub enum DepositStatus {
    Normal,
    Disputed,
    Resolved,
    ChargedBack,
}

/// A deposit as an account remembers it: its amount in ten-thousandths and
/// its status.
pub struct DepositRecord {
    pub amount: int,
    pub status: DepositStatus,
}

/// An account as the rules see it. The balances count ten-thousandths.
pub struct AccountState {
    pub client_id: u16,
    pub available: int,
    pub held: int,
    pub total: int,
    pub locked: bool,
    pub deposits: Map<u32, DepositRecord>,
    pub withdrawals: Set<u32>,
}

/// The account after a transaction, and whether the transaction was accepted.
pub struct Outcome {
    pub state: AccountState,
    pub result: Result<(), TxError>,
}

impl AccountState {
    /// The account of a client before its first transaction.
    pub open spec fn opened(client_id: u16) -> AccountState {
        AccountState {
            client_id,
            available: 0,
            held: 0,
            total: 0,
            locked: false,
            deposits: Map::empty(),
            withdrawals: Set::empty(),
        }
    }

    /// What holds of an account at every point: the total is the sum of
    /// what is available and what is held, no balance is negative, and every
    /// balance and every remembered amount fits in 96 bits.
    pub open spec fn inv(self) -> bool {
        &&& self.total == self.available + self.held
        &&& 0 <= self.available
        &&& 0 <= self.held
        &&& self.total <= MAX_MANTISSA
        &&& forall|id: u32| #[trigger]
            self.deposits.contains_key(id) ==> 0 <= self.deposits[id].amount <= MAX_MANTISSA
    }

    /// The available balance as an amount.
    pub open spec fn available_amount(self) -> AmountView {
        AmountView { mantissa: self.available, scale: FIXED_SCALE as nat }
    }

    /// The transaction is refused and the account stays as it is.
    pub open spec fn rejected(self, error: TxError) -> Outcome {
        Outcome { state: self, result: Err(error) }
    }

    /// The transaction is accepted and leaves the account as `self`.
    pub open spec fn accepted(self) -> Outcome {
        Outcome { state: self, result: Ok(()) }
    }

    /// The deposit `tx_id` with its status changed.
    pub open spec fn with_status(self, tx_id: u32, status: DepositStatus) -> Map<
        u32,
        DepositRecord,
    > {
        self.deposits.insert(tx_id, DepositRecord { amount: self.deposits[tx_id].amount, status })
    }

    /// A deposit of `amount` under the id `tx_id`.
    pub open spec fn deposit(self, tx_id: u32, amount: Option<AmountView>) -> Outcome {
        if self.locked {
            self.rejected(TxError::LockedAccountError)
        } else if amount is None {
            self.rejected(TxError::MissingAmountError)
        } else if amount.unwrap().mantissa <= 0 {
            self.rejected(TxError::InvalidAmountError)
        } else if self.deposits.contains_key(tx_id) {
            self.rejected(TxError::InvalidTxIdError)
        } else if amount.unwrap().fixed() is None {
            self.rejected(TxError::InvalidAmountError)
        } else {
            let units = amount.unwrap().fixed().unwrap();
            if self.total + units > MAX_MANTISSA {
                self.rejected(TxError::InvalidAmountError)
            } else {
                (AccountState {
                    available: self.available + units,
                    total: self.total + units,
                    deposits: self.deposits.insert(
                        tx_id,
                        DepositRecord { amount: units, status: DepositStatus::Normal },
                    ),
                    ..self
                }).accepted()
            }
        }
    }

    /// A withdrawal of `amount` under the id `tx_id`.
    pub open spec fn withdraw(self, tx_id: u32, amount: Option<AmountView>) -> Outcome {
        if self.locked {
            self.rejected(TxError::LockedAccountError)
        } else if amount is None {
            self.rejected(TxError::MissingAmountError)
        } else if amount.unwrap().mantissa <= 0 {
            self.rejected(TxError::InvalidAmountError)
        } else if self.available_amount().less_than(amount.unwrap()) {
            self.rejected(TxError::InvalidAmountError)
        } else if self.withdrawals.contains(tx_id) {
            self.rejected(TxError::InvalidTxIdError)
        } else {
            let units = amount.unwrap().fixed().unwrap();
            (AccountState {
                available: self.available - units,
                total: self.total - units,
                withdrawals: self.withdrawals.insert(tx_id),
                ..self
            }).accepted()
        }
    }

    /// A dispute of the deposit `tx_id`: its amount moves from available to
    /// held.
    pub open spec fn dispute(self, tx_id: u32) -> Outcome {
        if self.locked {
            self.rejected(TxError::LockedAccountError)
        } else if !self.deposits.contains_key(tx_id) {
            self.rejected(TxError::InvalidTxIdError)
        } else if self.deposits[tx_id].status != DepositStatus::Normal {
            self.rejected(TxError::InvalidOperatioonError)
        } else if self.deposits[tx_id].amount > self.available {
            self.rejected(TxError::InvalidAmountError)
        } else {
            (AccountState {
                available: self.available - self.deposits[tx_id].amount,
                held: self.held + self.deposits[tx_id].amount,
                deposits: self.with_status(tx_id, DepositStatus::Disputed),
                ..self
            }).accepted()
        }
    }

    /// The dispute of the deposit `tx_id` is resolved: its amount moves back
    /// from held to available.
    pub open spec fn resolve(self, tx_id: u32) -> Outcome {
        if self.locked {
            self.rejected(TxError::LockedAccountError)
        } else if !self.deposits.contains_key(tx_id) {
            self.rejected(TxError::InvalidTxIdError)
        } else if self.deposits[tx_id].status != DepositStatus::Disputed {
            self.rejected(TxError::InvalidOperatioonError)
        } else if self.deposits[tx_id].amount > self.held {
            self.rejected(TxError::InvalidAmountError)
        } else {
            (AccountState {
                available: self.available + self.deposits[tx_id].amount,
                held: self.held - self.deposits[tx_id].amount,
                deposits: self.with_status(tx_id, DepositStatus::Resolved),
                ..self
            }).accepted()
        }
    }

    /// The disputed deposit `tx_id` is charged back: its amount leaves the
    /// account, and the account is locked.
    pub open spec fn chargeback(self, tx_id: u32) -> Outcome {
        if self.locked {
            self.rejected(TxError::LockedAccountError)
        } else if !self.deposits.contains_key(tx_id) {
            self.rejected(TxError::InvalidTxIdError)
        } else if self.deposits[tx_id].status != DepositStatus::Disputed {
            self.rejected(TxError::InvalidOperatioonError)
        } else if self.deposits[tx_id].amount > self.held {
            self.rejected(TxError::InvalidAmountError)
        } else {
            (AccountState {
                held: self.held - self.deposits[tx_id].amount,
                total: self.total - self.deposits[tx_id].amount,
                locked: true,
                deposits: self.with_status(tx_id, DepositStatus::ChargedBack),
                ..self
            }).accepted()
        }
    }

    /// The account after `tx`, and whether `tx` was accepted.
    pub open spec fn apply(self, tx: TransactionView) -> Outcome {
        match tx.kind {
            TxType::Deposit => self.deposit(tx.tx_id, tx.amount),
            TxType::Withdrawal => self.withdraw(tx.tx_id, tx.amount),
            TxType::Dispute => self.dispute(tx.tx_id),
            TxType::Resolve => self.resolve(tx.tx_id),
            TxType::ChargeBack => self.chargeback(tx.tx_id),
        }
    }
}

/// A deposit as an account holds it.
#[derive(Debug, Clone, Copy)]
pub struct Deposit {
    pub amount: Amount,
    pub status: DepositStatus,
}

impl View for Deposit {
    type V = DepositRecord;

    open spec fn view(&self) -> DepositRecord {
        DepositRecord { amount: self.amount@.mantissa, status: self.status }
    }
}

/// The balances of one account, as a report shows them.
#[derive(Debug, Clone, Copy)]
pub struct Balance {
    pub client_id: u16,
    pub available: Amount,
    pub held: Amount,
    pub total: Amount,
    pub locked: bool,
}

impl Balance {
    /// Each of the three amounts has four fractional digits.
    pub open spec fn is_fixed(self) -> bool {
        &&& self.available@.is_fixed()
        &&& self.held@.is_fixed()
        &&& self.total@.is_fixed()
    }
}

/// The account of one client.
pub struct Account {
    pub client_id: u16,
    pub available_amount: Amount,
    pub held_amount: Amount,
    pub total_amount: Amount,
    pub locked: bool,
    pub deposit_history: HashMap<u32, Deposit>,
    pub withdrawal_history: HashSet<u32>,
}

impl View for Account {
    type V = AccountState;

    open spec fn view(&self) -> AccountState {
        AccountState {
            client_id: self.client_id,
            available: self.available_amount@.mantissa,
            held: self.held_amount@.mantissa,
            total: self.total_amount@.mantissa,
            locked: self.locked,
            deposits: self.deposits(),
            withdrawals: self.withdrawals(),
        }
    }
}

impl Account {
    /// The deposits that the account remembers, by transaction id.
    pub open spec fn deposits(&self) -> Map<u32, DepositRecord> {
        Map::new(
            |id: u32| self.deposit_history@.contains_key(id),
            |id: u32| self.deposit_history@[id]@,
        )
    }

    /// The ids of the withdrawals that the account has made.
    pub open spec fn withdrawals(&self) -> Set<u32> {
        self.withdrawal_history@
    }

    /// Every remembered amount has four fractional digits.
    pub open spec fn history_is_fixed(&self) -> bool {
        forall|id: u32| #[trigger]
            self.deposit_history@.contains_key(id) ==> self.deposit_history@[id].amount@.is_fixed()
    }

    /// The account is well formed: every amount in it has four fractional
    /// digits, and the invariant of the balances holds.
    pub open spec fn wf(&self) -> bool {
        &&& self.available_amount@.is_fixed()
        &&& self.held_amount@.is_fixed()
        &&& self.total_amount@.is_fixed()
        &&& self.history_is_fixed()
        &&& self@.inv()
    }

    /// The balances that a report shows of the account.
    pub open spec fn spec_balance(&self) -> Balance {
        Balance {
            client_id: self.client_id,
            available: self.available_amount,
            held: self.held_amount,
            total: self.total_amount,
            locked: self.locked,
        }
    }

    /// The balances of the account, for a report.
    #[verifier::when_used_as_spec(spec_balance)]
    pub fn balance(&self) -> (balance: Balance)
        ensures
            balance == self.spec_balance(),
    {
        Balance {
            client_id: self.client_id,
            available: self.available_amount,
            held: self.held_amount,
            total: self.total_amount,
            locked: self.locked,
        }
    }

    /// An account without funds and without history.
    pub fn new(client_id: u16) -> (account: Account)
        ensures
            account.wf(),
            account@ == AccountState::opened(client_id),
    {
        let account = Account {
            client_id,
            held_amount: Amount::zero(),
            available_amount: Amount::zero(),
            total_amount: Amount::zero(),
            locked: false,
            deposit_history: HashMap::with_capacity(DEFAULT_COUNT),
            withdrawal_history: HashSet::with_capacity(DEFAULT_COUNT),
        };
        assert(account.deposits() =~= Map::empty());
        account
    }

    /// A locked account takes no transaction.
    fn validate_account(&self) -> (result: Result<(), TxError>)
        ensures
            self.locked ==> result == Err::<(), TxError>(TxError::LockedAccountError),
            !self.locked ==> result is Ok,
    {
        if self.locked {
            return Err(TxError::LockedAccountError);
        }
        Ok(())
    }

    /// The amount of a deposit or of a withdrawal: it has to be there and to be
    /// positive.
    fn validate_amount(tx: &Transaction) -> (result: Result<Amount, TxError>)
        ensures
            match result {
                Ok(amount) => tx@.amount == Some(amount@) && amount@.mantissa > 0
                    && amount@.in_range(),
                Err(error) => if tx@.amount is None {
                    error == TxError::MissingAmountError
                } else {
                    error == TxError::InvalidAmountError && tx@.amount.unwrap().mantissa <= 0
                },
            },
    {
        if let Some(amount) = tx.amount {
            proof {
                use_type_invariant(&amount);
                lemma_pow10_fixed();
            }
            let zero = Amount::zero();
            proof {
                use_type_invariant(&zero);
            }
            if !greater_than(amount, zero) {
                return Err(TxError::InvalidAmountError);
            }
            return Ok(amount);
        }
        Err(TxError::MissingAmountError)
    }

    /// The amount at four fractional digits, where it has that form.
    fn adjust_scale(amt: &Amount) -> (adjusted: Option<Amount>)
        ensures
            match adjusted {
                Some(fixed) => fixed@.is_fixed() && amt@.fixed() == Some(fixed@.mantissa),
                None => amt@.fixed() is None,
            },
    {
        proof {
            use_type_invariant(amt);
            reveal_with_fuel(pow10, 5);
        }
        let rescaled = rescale(*amt, FIXED_SCALE);
        if rescaled.scale() == FIXED_SCALE {
            Some(rescaled)
        } else {
            proof {
                let reached = rescaled@.mantissa;
                let gained = (rescaled@.scale - amt@.scale) as nat;
                let short = (FIXED_SCALE - rescaled@.scale) as nat;
                lemma_pow10_adds(gained, short);
                assert(amt@.mantissa * pow10(gained + short) == reached * pow10(short))
                    by (nonlinear_arith)
                    requires
                        reached == amt@.mantissa * pow10(gained),
                        pow10(gained + short) == pow10(gained) * pow10(short),
                ;
                assert(pow10(short) == 10 || pow10(short) == 100 || pow10(short) == 1000
                    || pow10(short) == 10000);
                assert(!fits(reached * pow10(short)));
            }
            None
        }
    }

    /// The amount of a deposit, whose id has to be new among the deposits of
    /// the account.
    fn validate_deposit(&self, tx: &Transaction) -> (result: Result<Amount, TxError>)
        ensures
            match result {
                Ok(amount) => tx@.amount == Some(amount@) && amount@.mantissa > 0
                    && !self.deposits().contains_key(tx.tx_id),
                Err(error) => if tx@.amount is None {
                    error == TxError::MissingAmountError
                } else if tx@.amount.unwrap().mantissa <= 0 {
                    error == TxError::InvalidAmountError
                } else {
                    error == TxError::InvalidTxIdError && self.deposits().contains_key(tx.tx_id)
                },
            },
    {
        let amount = Self::validate_amount(tx)?;
        if self.deposit_history.contains_key(&tx.tx_id) {
            return Err(TxError::InvalidTxIdError);
        }
        Ok(amount)
    }

    /// The amount of a withdrawal: it must not exceed what is available, and
    /// the id has to be new among the withdrawals of the account.
    fn validate_withdraw(&self, tx: &Transaction) -> (result: Result<Amount, TxError>)
        requires
            self.wf(),
        ensures
            match result {
                Ok(amount) => tx@.amount == Some(amount@) && amount@.mantissa > 0
                    && !self@.available_amount().less_than(amount@) && !self.withdrawals().contains(
                    tx.tx_id,
                ),
                Err(error) => if tx@.amount is None {
                    error == TxError::MissingAmountError
                } else if tx@.amount.unwrap().mantissa <= 0 || self@.available_amount().less_than(
                    tx@.amount.unwrap(),
                ) {
                    error == TxError::InvalidAmountError
                } else {
                    error == TxError::InvalidTxIdError && self.withdrawals().contains(tx.tx_id)
                },
            },
    {
        let amount = Self::validate_amount(tx)?;
        proof {
            use_type_invariant(&self.available_amount);
        }
        if greater_than(amount, self.available_amount) {
            return Err(TxError::InvalidAmountError);
        }
        if self.withdrawal_history.contains(&tx.tx_id) {
            return Err(TxError::InvalidTxIdError);
        }
        Ok(amount)
    }

    /// The deposit that a dispute names: the account has to remember it, and it
    /// must not have been disputed before.
    fn validate_dispute(history: &HashMap<u32, Deposit>, tx: &Transaction) -> (result: Result<
        Deposit,
        TxError,
    >)
        ensures
            match result {
                Ok(deposit) => history@.contains_key(tx.tx_id) && history@[tx.tx_id] == deposit
                    && deposit.status == DepositStatus::Normal,
                Err(error) => if !history@.contains_key(tx.tx_id) {
                    error == TxError::InvalidTxIdError
                } else {
                    error == TxError::InvalidOperatioonError && history@[tx.tx_id].status
                        != DepositStatus::Normal
                },
            },
    {
        if let Some(deposit) = history.get(&tx.tx_id) {
            if deposit.status != DepositStatus::Normal {
                return Err(TxError::InvalidOperatioonError);
            }
            return Ok(*deposit);
        }
        Err(TxError::InvalidTxIdError)
    }

    /// The deposit that a resolve names: the account has to remember it, and it
    /// has to be under dispute.
    fn validate_resolve(history: &HashMap<u32, Deposit>, tx: &Transaction) -> (result: Result<
        Deposit,
        TxError,
    >)
        ensures
            match result {
                Ok(deposit) => history@.contains_key(tx.tx_id) && history@[tx.tx_id] == deposit
                    && deposit.status == DepositStatus::Disputed,
                Err(error) => if !history@.contains_key(tx.tx_id) {
                    error == TxError::InvalidTxIdError
                } else {
                    error == TxError::InvalidOperatioonError && history@[tx.tx_id].status
                        != DepositStatus::Disputed
                },
            },
    {
        if let Some(deposit) = history.get(&tx.tx_id) {
            if deposit.status != DepositStatus::Disputed {
                return Err(TxError::InvalidOperatioonError);
            }
            return Ok(*deposit);
        }
        Err(TxError::InvalidTxIdError)
    }

    /// The deposit that a chargeback names: the account has to remember it, and
    /// it has to be under dispute.
    fn validate_chargeback(history: &HashMap<u32, Deposit>, tx: &Transaction) -> (result: Result<
        Deposit,
        TxError,
    >)
        ensures
            match result {
                Ok(deposit) => history@.contains_key(tx.tx_id) && history@[tx.tx_id] == deposit
                    && deposit.status == DepositStatus::Disputed,
                Err(error) => if !history@.contains_key(tx.tx_id) {
                    error == TxError::InvalidTxIdError
                } else {
                    error == TxError::InvalidOperatioonError && history@[tx.tx_id].status
                        != DepositStatus::Disputed
                },
            },
    {
        if let Some(deposit) = history.get(&tx.tx_id) {
            if deposit.status != DepositStatus::Disputed {
                return Err(TxError::InvalidOperatioonError);
            }
            return Ok(*deposit);
        }
        Err(TxError::InvalidTxIdError)
    }

    /// Adds the amount, at four fractional digits, to what is available and to
    /// the total, and remembers the deposit. An amount that cannot be brought
    /// to four fractional digits, or that takes the total out of range, is
    /// refused.
    fn on_deposit(&mut self, tx: &Transaction) -> (result: Result<(), TxError>)
        requires
            old(self).wf(),
        ensures
            final(self).wf(),
            (Outcome { state: final(self)@, result }) == old(self)@.deposit(tx.tx_id, tx@.amount),
    {
        self.validate_account()?;
        if let Some(amount) = Self::adjust_scale(&self.validate_deposit(tx)?) {
            proof {
                use_type_invariant(&amount);
                lemma_fixed_sign(tx@.amount.unwrap());
            }
            if let Some(new_available) = fixed_sum(self.available_amount, amount) {
                if let Some(new_total) = fixed_sum(self.total_amount, amount) {
                    self.available_amount = new_available;
                    self.total_amount = new_total;
                    self.deposit_history.insert(
                        tx.tx_id,
                        Deposit { amount, status: DepositStatus::Normal },
                    );
                    assert(self.deposits() =~= old(self).deposits().insert(
                        tx.tx_id,
                        DepositRecord { amount: amount@.mantissa, status: DepositStatus::Normal },
                    ));
                    return Ok(());
                }
            }
        }
        Err(TxError::InvalidAmountError)
    }

    /// Takes the amount, at four fractional digits, from what is available and
    /// from the total, and remembers the id of the withdrawal.
    fn on_withdraw(&mut self, tx: &Transaction) -> (result: Result<(), TxError>)
        requires
            old(self).wf(),
        ensures
            final(self).wf(),
            (Outcome { state: final(self)@, result }) == old(self)@.withdraw(tx.tx_id, tx@.amount),
    {
        self.validate_account()?;
        let adjusted = Self::adjust_scale(&self.validate_withdraw(tx)?);
        proof {
            lemma_fixed_within(tx@.amount.unwrap(), self@.available);
        }
        if let Some(amount) = adjusted {
            if let Some(new_available) = fixed_rest(self.available_amount, amount) {
                if let Some(new_total) = fixed_rest(self.total_amount, amount) {
                    self.available_amount = new_available;
                    self.total_amount = new_total;
                    self.withdrawal_history.insert(tx.tx_id);
                    return Ok(());
                }
            }
        }
        Err(TxError::InvalidAmountError)
    }

    /// Moves the amount of the deposit from available to held. A deposit whose
    /// amount is no longer available is not disputed.
    fn on_dispute(&mut self, tx: &Transaction) -> (result: Result<(), TxError>)
        requires
            old(self).wf(),
        ensures
            final(self).wf(),
            (Outcome { state: final(self)@, result }) == old(self)@.dispute(tx.tx_id),
    {
        self.validate_account()?;
        let deposit = Self::validate_dispute(&self.deposit_history, tx)?;
        let amount = deposit.amount;
        if let Some(new_held) = fixed_sum(self.held_amount, amount) {
            if let Some(new_available) = fixed_rest(self.available_amount, amount) {
                self.deposit_history.insert(
                    tx.tx_id,
                    Deposit { amount, status: DepositStatus::Disputed },
                );
                self.held_amount = new_held;
                self.available_amount = new_available;
                assert(self.deposits() =~= old(self)@.with_status(
                    tx.tx_id,
                    DepositStatus::Disputed,
                ));
                return Ok(());
            }
        }
        Err(TxError::InvalidAmountError)
    }

    /// Moves the amount of the disputed deposit back from held to available.
    fn on_resolve(&mut self, tx: &Transaction) -> (result: Result<(), TxError>)
        requires
            old(self).wf(),
        ensures
            final(self).wf(),
            (Outcome { state: final(self)@, result }) == old(self)@.resolve(tx.tx_id),
    {
        self.validate_account()?;
        let deposit = Self::validate_resolve(&self.deposit_history, tx)?;
        let amount = deposit.amount;
        if let Some(new_held) = fixed_rest(self.held_amount, amount) {
            if let Some(new_available) = fixed_sum(self.available_amount, amount) {
                self.held_amount = new_held;
                self.available_amount = new_available;
                self.deposit_history.insert(
                    tx.tx_id,
                    Deposit { amount, status: DepositStatus::Resolved },
                );
                assert(self.deposits() =~= old(self)@.with_status(
                    tx.tx_id,
                    DepositStatus::Resolved,
                ));
                return Ok(());
            }
        }
        Err(TxError::InvalidAmountError)
    }

    /// Takes the amount of the disputed deposit from held and from the total,
    /// and locks the account.
    fn on_chargeback(&mut self, tx: &Transaction) -> (result: Result<(), TxError>)
        requires
            old(self).wf(),
        ensures
            final(self).wf(),
            (Outcome { state: final(self)@, result }) == old(self)@.chargeback(tx.tx_id),
    {
        self.validate_account()?;
        let deposit = Self::validate_chargeback(&self.deposit_history, tx)?;
        let amount = deposit.amount;
        if let Some(new_held) = fixed_rest(self.held_amount, amount) {
            if let Some(new_total) = fixed_rest(self.total_amount, amount) {
                self.held_amount = new_held;
                self.total_amount = new_total;
                self.deposit_history.insert(
                    tx.tx_id,
                    Deposit { amount, status: DepositStatus::ChargedBack },
                );
                self.locked = true;
                assert(self.deposits() =~= old(self)@.with_status(
                    tx.tx_id,
                    DepositStatus::ChargedBack,
                ));
                return Ok(());
            }
        }
        Err(TxError::InvalidAmountError)
    }

    /// Applies one transaction to the account. A transaction that is refused
    /// leaves the account as it was.
    pub fn on_tx(&mut self, tx: &Transaction) -> (result: Result<(), TxError>)
        requires
            old(self).wf(),
        ensures
            final(self).wf(),
            (Outcome { state: final(self)@, result }) == old(self)@.apply(tx@),
    {
        match tx.kind {
            TxType::Deposit => self.on_deposit(tx),
            TxType::Withdrawal => self.on_withdraw(tx),
            TxType::Dispute => self.on_dispute(tx),
            TxType::Resolve => self.on_resolve(tx),
            TxType::ChargeBack => self.on_chargeback(tx),
        }
    }
}

/// The sum of two amounts of four fractional digits, where it fits in 96
/// bits.
fn fixed_sum(a: Amount, b: Amount) -> (sum: Option<Amount>)
    requires
        a@.is_fixed(),
        b@.is_fixed(),
    ensures
        match sum {
            Some(s) => s@.is_fixed() && s@.mantissa == a@.mantissa + b@.mantissa && fits(
                s@.mantissa,
            ),
            None => !fits(a@.mantissa + b@.mantissa),
        },
{
    proof {
        use_type_invariant(&a);
        use_type_invariant(&b);
    }
    match checked_add(a, b) {
        Some(s) => if s.scale() == FIXED_SCALE {
            Some(s)
        } else {
            None
        },
        None => None,
    }
}

/// What is left of `a` once `b` is taken from it, both of four fractional
/// digits, where that is not negative and fits in 96 bits.
fn fixed_rest(a: Amount, b: Amount) -> (rest: Option<Amount>)
    requires
        a@.is_fixed(),
        b@.is_fixed(),
    ensures
        match rest {
            Some(r) => r@.is_fixed() && r@.mantissa == a@.mantissa - b@.mantissa && 0
                <= r@.mantissa <= MAX_MANTISSA,
            None => a@.mantissa < b@.mantissa || !fits(a@.mantissa - b@.mantissa),
        },
{
    proof {
        use_type_invariant(&a);
        use_type_invariant(&b);
        lemma_pow10_fixed();
    }
    match checked_sub(a, b) {
        Some(r) => {
            let zero = Amount::zero();
            proof {
                use_type_invariant(&zero);
                use_type_invariant(&r);
            }
            if r.scale() == FIXED_SCALE && !greater_than(zero, r) {
                Some(r)
            } else {
                None
            }
        },
        None => None,
    }
}

} // verus!
