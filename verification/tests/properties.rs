use bkeeper::model::{Account, Amount, Transaction, TxError, TxType};

fn tx(kind: TxType, tx_id: u32, amount: Option<(i128, u32)>) -> Transaction {
    Transaction {
        kind,
        client_id: 1,
        tx_id,
        amount: amount.map(|(m, s)| Amount::new(m, s).unwrap()),
    }
}

fn balances(acct: &Account) -> (i128, i128, i128, bool) {
    assert_eq!(acct.available_amount.scale(), 4);
    assert_eq!(acct.held_amount.scale(), 4);
    assert_eq!(acct.total_amount.scale(), 4);
    (
        acct.available_amount.mantissa(),
        acct.held_amount.mantissa(),
        acct.total_amount.mantissa(),
        acct.locked,
    )
}

const MAX: i128 = 79_228_162_514_264_337_593_543_950_335;

#[test]
fn test_total_is_available_plus_held_at_every_step() {
    let stream = [
        tx(TxType::Deposit, 1, Some((105, 1))),
        tx(TxType::Deposit, 2, Some((3, 0))),
        tx(TxType::Withdrawal, 3, Some((25, 1))),
        tx(TxType::Dispute, 2, None),
        tx(TxType::Withdrawal, 4, Some((100, 0))),
        tx(TxType::Deposit, 2, Some((1, 0))),
        tx(TxType::Resolve, 2, None),
        tx(TxType::Dispute, 1, None),
        tx(TxType::Dispute, 2, None),
        tx(TxType::ChargeBack, 1, None),
        tx(TxType::Deposit, 9, Some((1, 0))),
    ];
    let expected = [
        (105000, 0, 105000, false),
        (135000, 0, 135000, false),
        (110000, 0, 110000, false),
        (80000, 30000, 110000, false),
        (80000, 30000, 110000, false),
        (80000, 30000, 110000, false),
        (110000, 0, 110000, false),
        (5000, 105000, 110000, false),
        (5000, 105000, 110000, false),
        (5000, 0, 5000, true),
        (5000, 0, 5000, true),
    ];
    let mut acct = Account::new(1);
    assert_eq!(balances(&acct), (0, 0, 0, false));
    for (t, e) in stream.iter().zip(expected.iter()) {
        let _ = acct.on_tx(t);
        let (available, held, total, _) = balances(&acct);
        assert_eq!(total, available + held);
        assert!(available >= 0 && held >= 0 && total >= 0);
        assert_eq!(balances(&acct), *e);
    }
}

#[test]
fn test_second_deposit_under_same_id_changes_nothing() {
    let mut acct = Account::new(1);
    let deposit = tx(TxType::Deposit, 1, Some((12345, 4)));
    assert_eq!(acct.on_tx(&deposit), Ok(()));
    let before = balances(&acct);
    assert_eq!(acct.on_tx(&deposit), Err(TxError::InvalidTxIdError));
    assert_eq!(balances(&acct), before);
    // another amount under the id that was used is refused as well
    assert_eq!(
        acct.on_tx(&tx(TxType::Deposit, 1, Some((1, 0)))),
        Err(TxError::InvalidTxIdError)
    );
    assert_eq!(balances(&acct), (12345, 0, 12345, false));
}

#[test]
fn test_deposit_is_disputed_at_most_once() {
    let mut acct = Account::new(1);
    assert_eq!(acct.on_tx(&tx(TxType::Deposit, 1, Some((5, 0)))), Ok(()));
    assert_eq!(acct.on_tx(&tx(TxType::Dispute, 1, None)), Ok(()));
    assert_eq!(
        acct.on_tx(&tx(TxType::Dispute, 1, None)),
        Err(TxError::InvalidOperatioonError)
    );
    assert_eq!(balances(&acct), (0, 50000, 50000, false));
    assert_eq!(acct.on_tx(&tx(TxType::Resolve, 1, None)), Ok(()));
    // resolved: neither disputed again, nor resolved or charged back again
    for kind in [TxType::Dispute, TxType::Resolve, TxType::ChargeBack] {
        assert_eq!(acct.on_tx(&tx(kind, 1, None)), Err(TxError::InvalidOperatioonError));
        assert_eq!(balances(&acct), (50000, 0, 50000, false));
    }
}

#[test]
fn test_resolve_and_chargeback_need_a_dispute() {
    let mut acct = Account::new(1);
    assert_eq!(acct.on_tx(&tx(TxType::Deposit, 1, Some((5, 0)))), Ok(()));
    for kind in [TxType::Resolve, TxType::ChargeBack] {
        assert_eq!(acct.on_tx(&tx(kind, 1, None)), Err(TxError::InvalidOperatioonError));
        assert_eq!(acct.on_tx(&tx(kind, 2, None)), Err(TxError::InvalidTxIdError));
        assert_eq!(balances(&acct), (50000, 0, 50000, false));
    }
}

#[test]
fn test_locked_account_refuses_every_kind() {
    let mut acct = Account::new(1);
    assert_eq!(acct.on_tx(&tx(TxType::Deposit, 1, Some((5, 0)))), Ok(()));
    assert_eq!(acct.on_tx(&tx(TxType::Deposit, 2, Some((7, 0)))), Ok(()));
    assert_eq!(acct.on_tx(&tx(TxType::Dispute, 2, None)), Ok(()));
    assert_eq!(acct.on_tx(&tx(TxType::Dispute, 1, None)), Ok(()));
    assert_eq!(acct.on_tx(&tx(TxType::ChargeBack, 1, None)), Ok(()));
    assert_eq!(balances(&acct), (0, 70000, 70000, true));
    let later = [
        tx(TxType::Deposit, 3, Some((1, 0))),
        tx(TxType::Deposit, 3, None),
        tx(TxType::Withdrawal, 4, Some((1, 0))),
        tx(TxType::Dispute, 2, None),
        tx(TxType::Resolve, 2, None),
        tx(TxType::ChargeBack, 2, None),
        tx(TxType::Resolve, 1, None),
        tx(TxType::Dispute, 77, None),
    ];
    for t in later.iter() {
        assert_eq!(acct.on_tx(t), Err(TxError::LockedAccountError));
        assert_eq!(balances(&acct), (0, 70000, 70000, true));
    }
}

#[test]
fn test_refused_transaction_leaves_history_as_it_was() {
    let mut acct = Account::new(1);
    assert_eq!(acct.on_tx(&tx(TxType::Deposit, 1, Some((5, 0)))), Ok(()));
    // refused withdrawal: its id stays free
    assert_eq!(
        acct.on_tx(&tx(TxType::Withdrawal, 2, Some((6, 0)))),
        Err(TxError::InvalidAmountError)
    );
    assert_eq!(acct.on_tx(&tx(TxType::Withdrawal, 2, Some((5, 0)))), Ok(()));
    // refused deposit: its id stays free
    assert_eq!(
        acct.on_tx(&tx(TxType::Deposit, 3, Some((0, 0)))),
        Err(TxError::InvalidAmountError)
    );
    assert_eq!(acct.on_tx(&tx(TxType::Deposit, 3, Some((1, 0)))), Ok(()));
    assert_eq!(balances(&acct), (10000, 0, 10000, false));
}

#[test]
fn test_withdrawal_and_deposit_ids_are_kept_apart() {
    let mut acct = Account::new(1);
    assert_eq!(acct.on_tx(&tx(TxType::Deposit, 1, Some((5, 0)))), Ok(()));
    assert_eq!(acct.on_tx(&tx(TxType::Deposit, 2, Some((1, 0)))), Ok(()));
    assert_eq!(acct.on_tx(&tx(TxType::Withdrawal, 1, Some((1, 0)))), Ok(()));
    assert_eq!(
        acct.on_tx(&tx(TxType::Withdrawal, 1, Some((1, 0)))),
        Err(TxError::InvalidTxIdError)
    );
    assert_eq!(balances(&acct), (50000, 0, 50000, false));
    // a dispute of the id 1 is a dispute of the deposit, not of the withdrawal
    assert_eq!(acct.on_tx(&tx(TxType::Dispute, 1, None)), Ok(()));
    assert_eq!(balances(&acct), (0, 50000, 50000, false));
    // a withdrawal id that no deposit used cannot be disputed
    assert_eq!(acct.on_tx(&tx(TxType::Deposit, 3, Some((1, 0)))), Ok(()));
    assert_eq!(acct.on_tx(&tx(TxType::Withdrawal, 4, Some((1, 0)))), Ok(()));
    assert_eq!(acct.on_tx(&tx(TxType::Dispute, 4, None)), Err(TxError::InvalidTxIdError));
}

#[test]
fn test_dispute_beyond_available_is_refused() {
    let mut acct = Account::new(1);
    assert_eq!(acct.on_tx(&tx(TxType::Deposit, 1, Some((5, 0)))), Ok(()));
    assert_eq!(acct.on_tx(&tx(TxType::Withdrawal, 2, Some((2, 0)))), Ok(()));
    assert_eq!(
        acct.on_tx(&tx(TxType::Dispute, 1, None)),
        Err(TxError::InvalidAmountError)
    );
    assert_eq!(balances(&acct), (30000, 0, 30000, false));
    // the deposit is still open to a dispute once the funds are there
    assert_eq!(acct.on_tx(&tx(TxType::Deposit, 3, Some((2, 0)))), Ok(()));
    assert_eq!(acct.on_tx(&tx(TxType::Dispute, 1, None)), Ok(()));
    assert_eq!(balances(&acct), (0, 50000, 50000, false));
}

#[test]
fn test_amount_is_ignored_where_none_is_needed() {
    let mut acct = Account::new(1);
    assert_eq!(acct.on_tx(&tx(TxType::Deposit, 1, Some((5, 0)))), Ok(()));
    assert_eq!(acct.on_tx(&tx(TxType::Dispute, 1, Some((-3, 2)))), Ok(()));
    assert_eq!(balances(&acct), (0, 50000, 50000, false));
    assert_eq!(acct.on_tx(&tx(TxType::Resolve, 1, Some((1, 0)))), Ok(()));
    assert_eq!(balances(&acct), (50000, 0, 50000, false));
}

#[test]
fn test_deposit_rounds_to_four_digits_half_away_from_zero() {
    let mut acct = Account::new(1);
    assert_eq!(acct.on_tx(&tx(TxType::Deposit, 1, Some((100005, 5)))), Ok(()));
    assert_eq!(balances(&acct), (10001, 0, 10001, false));
    assert_eq!(acct.on_tx(&tx(TxType::Deposit, 2, Some((100004, 5)))), Ok(()));
    assert_eq!(balances(&acct), (20001, 0, 20001, false));
    assert_eq!(acct.on_tx(&tx(TxType::Deposit, 3, Some((2_000_149_999, 9)))), Ok(()));
    assert_eq!(balances(&acct), (40002, 0, 40002, false));
    // positive, but nothing at four digits
    assert_eq!(acct.on_tx(&tx(TxType::Deposit, 4, Some((4, 5)))), Ok(()));
    assert_eq!(balances(&acct), (40002, 0, 40002, false));
    assert_eq!(
        acct.on_tx(&tx(TxType::Deposit, 4, Some((1, 0)))),
        Err(TxError::InvalidTxIdError)
    );
}

#[test]
fn test_deposit_gains_digits_up_to_four() {
    let mut acct = Account::new(1);
    assert_eq!(acct.on_tx(&tx(TxType::Deposit, 1, Some((2, 0)))), Ok(()));
    assert_eq!(acct.on_tx(&tx(TxType::Deposit, 2, Some((25, 1)))), Ok(()));
    assert_eq!(acct.on_tx(&tx(TxType::Deposit, 3, Some((125, 2)))), Ok(()));
    assert_eq!(acct.on_tx(&tx(TxType::Deposit, 4, Some((1125, 3)))), Ok(()));
    assert_eq!(balances(&acct), (20000 + 25000 + 12500 + 11250, 0, 68750, false));
}

#[test]
fn test_deposit_too_large_for_four_digits_is_refused() {
    let mut acct = Account::new(1);
    // 10^25 with four more digits would need more than 96 bits
    let large = 10_000_000_000_000_000_000_000_000i128;
    assert_eq!(
        acct.on_tx(&tx(TxType::Deposit, 1, Some((large, 0)))),
        Err(TxError::InvalidAmountError)
    );
    assert_eq!(
        acct.on_tx(&tx(TxType::Deposit, 1, Some((MAX, 3)))),
        Err(TxError::InvalidAmountError)
    );
    assert_eq!(balances(&acct), (0, 0, 0, false));
    // the largest amount of four digits is accepted
    assert_eq!(acct.on_tx(&tx(TxType::Deposit, 1, Some((MAX, 4)))), Ok(()));
    assert_eq!(balances(&acct), (MAX, 0, MAX, false));
}

#[test]
fn test_deposit_that_overflows_the_total_is_refused() {
    let mut acct = Account::new(1);
    assert_eq!(acct.on_tx(&tx(TxType::Deposit, 1, Some((MAX - 1, 4)))), Ok(()));
    assert_eq!(
        acct.on_tx(&tx(TxType::Deposit, 2, Some((2, 4)))),
        Err(TxError::InvalidAmountError)
    );
    assert_eq!(balances(&acct), (MAX - 1, 0, MAX - 1, false));
    assert_eq!(acct.on_tx(&tx(TxType::Deposit, 2, Some((1, 4)))), Ok(()));
    assert_eq!(balances(&acct), (MAX, 0, MAX, false));
    // held funds count towards the total
    assert_eq!(acct.on_tx(&tx(TxType::Dispute, 1, None)), Ok(()));
    assert_eq!(balances(&acct), (1, MAX - 1, MAX, false));
    assert_eq!(
        acct.on_tx(&tx(TxType::Deposit, 3, Some((1, 4)))),
        Err(TxError::InvalidAmountError)
    );
    assert_eq!(balances(&acct), (1, MAX - 1, MAX, false));
}

#[test]
fn test_withdrawal_is_compared_before_it_is_rounded() {
    let mut acct = Account::new(1);
    assert_eq!(acct.on_tx(&tx(TxType::Deposit, 1, Some((1, 0)))), Ok(()));
    // 1.00004 exceeds 1.0000, though it rounds to it
    assert_eq!(
        acct.on_tx(&tx(TxType::Withdrawal, 2, Some((100004, 5)))),
        Err(TxError::InvalidAmountError)
    );
    assert_eq!(balances(&acct), (10000, 0, 10000, false));
    // 0.99996 does not exceed 1.0000, and rounds to it
    assert_eq!(acct.on_tx(&tx(TxType::Withdrawal, 2, Some((99996, 5)))), Ok(()));
    assert_eq!(balances(&acct), (0, 0, 0, false));
}

#[test]
fn test_withdrawal_of_all_and_of_part() {
    let mut acct = Account::new(1);
    assert_eq!(acct.on_tx(&tx(TxType::Deposit, 1, Some((10, 0)))), Ok(()));
    assert_eq!(acct.on_tx(&tx(TxType::Withdrawal, 2, Some((25, 1)))), Ok(()));
    assert_eq!(balances(&acct), (75000, 0, 75000, false));
    assert_eq!(
        acct.on_tx(&tx(TxType::Withdrawal, 3, Some((-1, 0)))),
        Err(TxError::InvalidAmountError)
    );
    assert_eq!(
        acct.on_tx(&tx(TxType::Withdrawal, 3, Some((0, 2)))),
        Err(TxError::InvalidAmountError)
    );
    assert_eq!(acct.on_tx(&tx(TxType::Withdrawal, 3, Some((75, 1)))), Ok(()));
    assert_eq!(balances(&acct), (0, 0, 0, false));
    assert_eq!(
        acct.on_tx(&tx(TxType::Withdrawal, 4, Some((1, 4)))),
        Err(TxError::InvalidAmountError)
    );
}

#[test]
fn test_held_funds_cannot_be_withdrawn() {
    let mut acct = Account::new(1);
    assert_eq!(acct.on_tx(&tx(TxType::Deposit, 1, Some((10, 0)))), Ok(()));
    assert_eq!(acct.on_tx(&tx(TxType::Deposit, 2, Some((5, 0)))), Ok(()));
    assert_eq!(acct.on_tx(&tx(TxType::Dispute, 1, None)), Ok(()));
    assert_eq!(
        acct.on_tx(&tx(TxType::Withdrawal, 3, Some((6, 0)))),
        Err(TxError::InvalidAmountError)
    );
    assert_eq!(acct.on_tx(&tx(TxType::Withdrawal, 3, Some((5, 0)))), Ok(()));
    assert_eq!(balances(&acct), (0, 100000, 100000, false));
}

#[test]
fn test_each_error_has_an_input() {
    let mut acct = Account::new(1);
    assert_eq!(acct.on_tx(&tx(TxType::Deposit, 1, None)), Err(TxError::MissingAmountError));
    assert_eq!(
        acct.on_tx(&tx(TxType::Deposit, 1, Some((-5, 0)))),
        Err(TxError::InvalidAmountError)
    );
    assert_eq!(acct.on_tx(&tx(TxType::Deposit, 1, Some((5, 0)))), Ok(()));
    assert_eq!(
        acct.on_tx(&tx(TxType::Deposit, 1, Some((5, 0)))),
        Err(TxError::InvalidTxIdError)
    );
    assert_eq!(
        acct.on_tx(&tx(TxType::ChargeBack, 1, None)),
        Err(TxError::InvalidOperatioonError)
    );
    assert_eq!(acct.on_tx(&tx(TxType::Dispute, 1, None)), Ok(()));
    assert_eq!(acct.on_tx(&tx(TxType::ChargeBack, 1, None)), Ok(()));
    assert_eq!(
        acct.on_tx(&tx(TxType::Withdrawal, 2, Some((1, 0)))),
        Err(TxError::LockedAccountError)
    );
    assert_ne!(TxError::InvaidFormatError, TxError::InvalidClientError);
}

#[test]
fn test_new_account_is_empty_and_open() {
    let acct = Account::new(42);
    assert_eq!(acct.client_id, 42);
    assert_eq!(balances(&acct), (0, 0, 0, false));
    assert!(acct.deposit_history.is_empty());
    assert!(acct.withdrawal_history.is_empty());
    let row = acct.balance();
    assert_eq!(row.client_id, 42);
    assert_eq!((row.available.mantissa(), row.held.mantissa(), row.total.mantissa()), (0, 0, 0));
    assert!(!row.locked);
}
