use toy_payments_engine::{Account, Amount, Error, Tx, TxKind, Txs};

fn dec(mantissa: i128, scale: u32) -> Amount {
    Amount::new(mantissa, scale).unwrap()
}

#[test]
fn test_tx_not_found() {
    let mut txs = Txs::new();
    assert_eq!(txs.dispute(1, 1001).unwrap_err(), Error::TxNotFound);
    assert_eq!(txs.resolve(1, 1001).unwrap_err(), Error::TxNotFound);
    assert_eq!(txs.charge_back(1, 1001).unwrap_err(), Error::TxNotFound);
}

#[test]
fn test_cid_mismatch() {
    let mut txs = Txs::new();
    txs.deposit(1, 1001, dec(10, 0)).unwrap();

    assert_eq!(txs.dispute(2, 1001).unwrap_err(), Error::CidMismatch);
    assert_eq!(txs.resolve(2, 1001).unwrap_err(), Error::CidMismatch);
    assert_eq!(txs.charge_back(2, 1001).unwrap_err(), Error::CidMismatch);
}

#[test]
fn test_tx_not_disputed() {
    let mut txs = Txs::new();
    txs.deposit(1, 1001, dec(20, 0)).unwrap();
    assert_eq!(txs.resolve(1, 1001).unwrap_err(), Error::TxNotDisputed);
    assert_eq!(txs.charge_back(1, 1001).unwrap_err(), Error::TxNotDisputed);
}

#[test]
fn test_total_overflow_when_deposit() {
    let mut txs = Txs::new();
    txs.deposit(1, 1001, Amount::max()).unwrap();
    txs.dispute(1, 1001).unwrap();

    assert_eq!(txs.deposit(1, 1002, dec(1, 0)), Err(Error::MathError));
}

#[test]
fn test_account_locked() {
    let mut txs = Txs::new();
    txs.deposit(1, 1001, dec(10, 0)).unwrap();
    txs.dispute(1, 1001).unwrap();
    txs.charge_back(1, 1001).unwrap();

    assert_eq!(txs.deposit(1, 1002, dec(5, 0)), Err(Error::AccountIsLocked));
    assert_eq!(
        txs.withdrawal(1, 1002, dec(5, 0)),
        Err(Error::AccountIsLocked)
    );
    assert_eq!(txs.dispute(1, 1001), Err(Error::AccountIsLocked));
    assert_eq!(txs.resolve(1, 1001), Err(Error::AccountIsLocked));
    assert_eq!(txs.charge_back(1, 1001), Err(Error::AccountIsLocked));
}

#[test]
fn test_new_ledger_has_no_account() {
    let txs = Txs::new();
    assert_eq!(txs.get(1), None);
    assert!(txs.accounts().is_empty());
    assert_eq!(Txs::default().get(0), None);
}

#[test]
fn test_builders_make_their_kind() {
    assert_eq!(Tx::deposit(1, 1000, dec(1, 0)).kind, TxKind::Deposit);
    assert_eq!(Tx::withdrawal(1, 1000, dec(1, 0)).kind, TxKind::Withdrawal);
    assert_eq!(Tx::dispute(1, 1000).kind, TxKind::Dispute);
    assert_eq!(Tx::resolve(1, 1000).kind, TxKind::Resolve);
    assert_eq!(Tx::charge_back(1, 1000).kind, TxKind::ChargeBack);

    let deposit = Tx::deposit(7, 1000, dec(15, 1));
    assert_eq!(deposit.cid, 7);
    assert_eq!(deposit.txid, 1000);
    assert_eq!(deposit.amount, Some(dec(15, 1)));

    let dispute = Tx::dispute(7, 1000);
    assert_eq!(dispute.cid, 7);
    assert_eq!(dispute.txid, 1000);
    assert_eq!(dispute.amount, None);
}

#[test]
fn test_process_tx_applies_a_deposit() {
    let mut txs = Txs::new();
    txs.process_tx(Tx::deposit(1, 1000, dec(10, 0))).unwrap();
    assert_eq!(txs.get(1).unwrap().available, dec(10, 0));
}

#[test]
fn test_deposits_add_up_per_client() {
    let mut txs = Txs::new();
    txs.deposit(1, 1001, dec(15005, 3)).unwrap();
    txs.deposit(1, 1002, dec(24996, 3)).unwrap();
    txs.deposit(2, 1003, dec(30, 0)).unwrap();
    txs.deposit(3, 1004, dec(5, 0)).unwrap();
    txs.deposit(1, 1005, dec(52, 1)).unwrap();

    assert_eq!(txs.get(1).unwrap().available, dec(45201, 3));
    assert_eq!(txs.get(2).unwrap().available, dec(30, 0));
    assert_eq!(txs.get(3).unwrap().available, dec(5, 0));
}

#[test]
fn test_deposit_keeps_the_larger_scale() {
    let mut txs = Txs::new();
    txs.deposit(1, 1, dec(10, 1)).unwrap();
    txs.deposit(1, 2, dec(2, 0)).unwrap();
    let available = txs.get(1).unwrap().available;
    assert_eq!(available.mantissa(), 30);
    assert_eq!(available.scale(), 1);
}

#[test]
fn test_transaction_id_is_used_once_over_all_clients() {
    let mut txs = Txs::new();
    txs.deposit(1, 1001, dec(10, 0)).unwrap();

    assert_eq!(txs.deposit(1, 1001, dec(15, 0)), Err(Error::TxAlreadyExists));
    assert_eq!(txs.deposit(2, 1001, dec(15, 0)), Err(Error::TxAlreadyExists));
    assert_eq!(
        txs.withdrawal(1, 1001, dec(5, 0)),
        Err(Error::TxAlreadyExists)
    );
    assert_eq!(txs.get(1), Some(&Account::new(dec(10, 0), dec(0, 0), false)));
}

#[test]
fn test_same_deposit_twice_counts_once() {
    let mut txs = Txs::new();
    assert_eq!(txs.deposit(1, 1001, dec(125, 1)), Ok(()));
    assert_eq!(
        txs.deposit(1, 1001, dec(125, 1)),
        Err(Error::TxAlreadyExists)
    );
    assert_eq!(txs.get(1).unwrap().available, dec(125, 1));
    assert_eq!(txs.get(1).unwrap().held, dec(0, 0));
}

#[test]
fn test_same_deposit_twice_overflows_before_the_id_is_looked_up() {
    let mut txs = Txs::new();
    assert_eq!(txs.deposit(1, 1001, Amount::max()), Ok(()));
    assert_eq!(txs.deposit(1, 1001, Amount::max()), Err(Error::MathError));
    assert_eq!(txs.get(1).unwrap().available, Amount::max());
}

#[test]
fn test_available_overflow_when_deposit() {
    let mut txs = Txs::new();
    txs.deposit(1, 1001, Amount::max()).unwrap();

    assert_eq!(txs.deposit(1, 1002, dec(1, 0)), Err(Error::MathError));
    assert_eq!(txs.get(1).unwrap().available, Amount::max());
}

#[test]
fn test_withdrawals_take_from_available() {
    let mut txs = Txs::new();
    txs.deposit(1, 1001, dec(15005, 3)).unwrap();
    txs.deposit(1, 1002, dec(24996, 3)).unwrap();
    txs.deposit(2, 1003, dec(10, 0)).unwrap();

    assert_eq!(txs.get(1).unwrap().available, dec(40001, 3));
    assert_eq!(txs.get(2).unwrap().available, dec(10, 0));

    txs.withdrawal(1, 1004, dec(10002, 3)).unwrap();
    txs.withdrawal(2, 1005, dec(10, 0)).unwrap();

    assert_eq!(txs.get(1).unwrap().available, dec(29999, 3));
    assert_eq!(txs.get(2).unwrap().available, dec(0, 0));
}

#[test]
fn test_available_is_deposits_less_withdrawals() {
    let mut txs = Txs::new();
    txs.deposit(1, 1, dec(1000, 2)).unwrap();
    txs.deposit(2, 2, dec(77, 0)).unwrap();
    txs.withdrawal(1, 3, dec(250, 2)).unwrap();
    txs.deposit(1, 4, dec(5, 1)).unwrap();
    txs.withdrawal(1, 5, dec(3, 0)).unwrap();
    txs.withdrawal(2, 6, dec(7, 0)).unwrap();

    assert_eq!(txs.get(1).unwrap().available, dec(5, 0));
    assert_eq!(txs.get(1).unwrap().held, dec(0, 0));
    assert_eq!(txs.get(2).unwrap().available, dec(70, 0));
}

#[test]
fn test_insufficient_funds() {
    let mut txs = Txs::new();
    assert_eq!(
        txs.withdrawal(1, 1001, dec(1, 0)),
        Err(Error::InsuffienctFunds)
    );
    assert_eq!(txs.get(1), Some(&Account::new(dec(0, 0), dec(0, 0), false)));

    txs.deposit(1, 1002, dec(5, 0)).unwrap();
    assert_eq!(
        txs.withdrawal(1, 1003, dec(501, 2)),
        Err(Error::InsuffienctFunds)
    );
    assert_eq!(txs.get(1).unwrap().available, dec(5, 0));
    assert_eq!(txs.withdrawal(1, 1003, dec(5, 0)), Ok(()));
    assert_eq!(txs.get(1).unwrap().available, dec(0, 0));
}

#[test]
fn test_withdrawal_underflow_is_a_math_error() {
    let mut txs = Txs::new();
    txs.deposit(1, 1, dec(10, 0)).unwrap();
    txs.withdrawal(1, 2, dec(10, 0)).unwrap();
    txs.dispute(1, 1).unwrap();
    assert_eq!(txs.get(1), Some(&Account::new(dec(-10, 0), dec(10, 0), false)));

    assert_eq!(txs.withdrawal(1, 3, Amount::max()), Err(Error::MathError));
    assert_eq!(txs.get(1), Some(&Account::new(dec(-10, 0), dec(10, 0), false)));
}

#[test]
fn test_deposit_is_taken_on_a_balance_below_zero() {
    let mut txs = Txs::new();
    txs.deposit(1, 1, dec(10, 0)).unwrap();
    txs.withdrawal(1, 2, dec(10, 0)).unwrap();
    txs.dispute(1, 1).unwrap();

    assert_eq!(txs.deposit(1, 3, dec(4, 0)), Ok(()));
    assert_eq!(txs.get(1), Some(&Account::new(dec(-6, 0), dec(10, 0), false)));
    assert_eq!(
        txs.withdrawal(1, 4, dec(1, 0)),
        Err(Error::InsuffienctFunds)
    );
}

#[test]
fn test_dispute_holds_the_deposit() {
    let mut txs = Txs::new();
    txs.deposit(1, 1001, dec(20, 0)).unwrap();
    txs.deposit(1, 1002, dec(10, 0)).unwrap();
    txs.dispute(1, 1001).unwrap();

    assert_eq!(txs.get(1), Some(&Account::new(dec(10, 0), dec(20, 0), false)));
}

#[test]
fn test_second_dispute_is_rejected() {
    let mut txs = Txs::new();
    txs.deposit(1, 1001, dec(20, 0)).unwrap();
    txs.deposit(1, 1002, dec(10, 0)).unwrap();
    txs.dispute(1, 1001).unwrap();

    assert_eq!(txs.dispute(1, 1001), Err(Error::TxAlreadyDisputed));
    assert_eq!(txs.get(1), Some(&Account::new(dec(10, 0), dec(20, 0), false)));
}

#[test]
fn test_withdrawal_cannot_be_disputed() {
    let mut txs = Txs::new();
    txs.deposit(1, 1001, dec(30, 0)).unwrap();
    txs.withdrawal(1, 1002, dec(10, 0)).unwrap();
    assert_eq!(txs.dispute(1, 1002), Err(Error::TxMustBeDeposit));
    assert_eq!(txs.get(1), Some(&Account::new(dec(20, 0), dec(0, 0), false)));
}

#[test]
fn test_dispute_then_resolve() {
    let mut txs = Txs::new();
    txs.deposit(1, 1001, dec(20, 0)).unwrap();
    txs.deposit(1, 1002, dec(10, 0)).unwrap();

    txs.dispute(1, 1001).unwrap();
    assert_eq!(txs.get(1), Some(&Account::new(dec(10, 0), dec(20, 0), false)));

    txs.resolve(1, 1001).unwrap();
    assert_eq!(txs.get(1), Some(&Account::new(dec(30, 0), dec(0, 0), false)));

    assert_eq!(txs.resolve(1, 1001), Err(Error::TxNotDisputed));
    assert_eq!(txs.dispute(1, 1001), Ok(()));
    assert_eq!(txs.get(1), Some(&Account::new(dec(10, 0), dec(20, 0), false)));
}

#[test]
fn test_round_trip_restores_the_balances() {
    let mut txs = Txs::new();
    txs.deposit(1, 1, dec(12345, 4)).unwrap();
    txs.deposit(1, 2, dec(700, 2)).unwrap();
    let before = *txs.get(1).unwrap();

    txs.dispute(1, 2).unwrap();
    assert_eq!(txs.get(1).unwrap().held, dec(7, 0));
    txs.resolve(1, 2).unwrap();

    assert_eq!(*txs.get(1).unwrap(), before);
    assert_eq!(txs.get(1).unwrap().available, dec(82345, 4));
    assert_eq!(txs.get(1).unwrap().held, dec(0, 0));
    assert_eq!(txs.resolve(1, 2), Err(Error::TxNotDisputed));
}

#[test]
fn test_dispute_then_chargeback() {
    let mut txs = Txs::new();
    txs.deposit(1, 1001, dec(20, 0)).unwrap();
    txs.deposit(1, 1002, dec(10, 0)).unwrap();

    txs.dispute(1, 1001).unwrap();
    assert_eq!(txs.get(1), Some(&Account::new(dec(10, 0), dec(20, 0), false)));

    txs.charge_back(1, 1001).unwrap();
    assert_eq!(txs.get(1), Some(&Account::new(dec(10, 0), dec(0, 0), true)));
}

#[test]
fn test_chargeback_is_final() {
    let mut txs = Txs::new();
    txs.deposit(1, 1001, dec(20, 0)).unwrap();
    txs.dispute(1, 1001).unwrap();
    assert_eq!(txs.get(1), Some(&Account::new(dec(0, 0), dec(20, 0), false)));

    txs.charge_back(1, 1001).unwrap();
    let locked = Account::new(dec(0, 0), dec(0, 0), true);
    assert_eq!(txs.get(1), Some(&locked));

    assert_eq!(txs.deposit(1, 1002, dec(5, 0)), Err(Error::AccountIsLocked));
    assert_eq!(txs.get(1), Some(&locked));
    assert_eq!(
        txs.process_tx(Tx::new(TxKind::Deposit, 1, 1003, None)),
        Err(Error::AccountIsLocked)
    );
    assert_eq!(txs.try_process_tx(Tx::dispute(1, 1001)), Some(Err(Error::AccountIsLocked)));
    assert_eq!(txs.get(1), Some(&locked));

    assert_eq!(txs.deposit(2, 1004, dec(5, 0)), Ok(()));
    assert_eq!(txs.get(1), Some(&locked));
}

#[test]
fn test_invalid_tx() {
    let mut txs = Txs::new();
    assert_eq!(
        txs.process_tx(Tx::new(TxKind::Deposit, 1, 1, None)),
        Err(Error::InvalidTx)
    );
    assert_eq!(
        txs.process_tx(Tx::new(TxKind::Withdrawal, 1, 1, None)),
        Err(Error::InvalidTx)
    );
    assert_eq!(
        txs.process_tx(Tx::new(TxKind::Dispute, 1, 1, Some(dec(1, 0)))),
        Err(Error::InvalidTx)
    );
    assert_eq!(
        txs.process_tx(Tx::new(TxKind::Resolve, 1, 1, Some(dec(1, 0)))),
        Err(Error::InvalidTx)
    );
    assert_eq!(
        txs.process_tx(Tx::new(TxKind::ChargeBack, 1, 1, Some(dec(1, 0)))),
        Err(Error::InvalidTx)
    );
    assert_eq!(txs.get(1), None);
}

#[test]
fn test_rejected_transaction_opens_the_account() {
    let mut txs = Txs::new();
    assert_eq!(txs.dispute(3, 9), Err(Error::TxNotFound));
    assert_eq!(txs.get(3), Some(&Account::default()));
    assert_eq!(txs.get(3), Some(&Account::new(dec(0, 0), dec(0, 0), false)));
    assert_eq!(txs.accounts().len(), 1);
}

#[test]
fn test_mismatched_client_changes_no_account() {
    let mut txs = Txs::new();
    txs.deposit(1, 1001, dec(10, 0)).unwrap();
    assert_eq!(txs.dispute(2, 1001), Err(Error::CidMismatch));
    assert_eq!(txs.get(1), Some(&Account::new(dec(10, 0), dec(0, 0), false)));
    assert_eq!(txs.get(2), Some(&Account::new(dec(0, 0), dec(0, 0), false)));
    assert_eq!(txs.dispute(1, 1001), Ok(()));
}

#[test]
fn test_dispute_out_of_range_is_not_taken() {
    let mut txs = Txs::new();
    txs.deposit(1, 1, dec(10, 0)).unwrap();
    txs.withdrawal(1, 2, dec(10, 0)).unwrap();
    txs.dispute(1, 1).unwrap();
    txs.deposit(1, 3, Amount::max()).unwrap();
    let before = *txs.get(1).unwrap();
    assert_eq!(before.held, dec(10, 0));

    assert!(!txs.in_range(&Tx::dispute(1, 3)));
    assert_eq!(txs.try_process_tx(Tx::dispute(1, 3)), None);
    assert_eq!(*txs.get(1).unwrap(), before);

    assert!(txs.in_range(&Tx::resolve(1, 1)));
    assert_eq!(txs.try_process_tx(Tx::resolve(1, 1)), Some(Ok(())));
    assert!(txs.in_range(&Tx::dispute(1, 3)));
    assert_eq!(txs.try_process_tx(Tx::dispute(1, 3)), Some(Ok(())));
    assert_eq!(txs.get(1), Some(&Account::new(dec(0, 0), Amount::max(), false)));
}

#[test]
fn test_in_range_of_what_is_rejected() {
    let mut txs = Txs::new();
    assert!(txs.in_range(&Tx::dispute(1, 1)));
    assert!(txs.in_range(&Tx::deposit(1, 1, Amount::max())));
    txs.deposit(1, 1, Amount::max()).unwrap();
    assert!(txs.in_range(&Tx::deposit(1, 2, Amount::max())));
    assert!(txs.in_range(&Tx::dispute(2, 1)));
    assert!(txs.in_range(&Tx::resolve(1, 1)));
    assert!(txs.in_range(&Tx::new(TxKind::Dispute, 1, 1, Some(dec(1, 0)))));
}

#[test]
fn test_accounts_lists_each_client_once() {
    let mut txs = Txs::new();
    txs.deposit(3, 1, dec(30, 0)).unwrap();
    txs.deposit(1, 2, dec(10, 0)).unwrap();
    txs.deposit(3, 3, dec(5, 1)).unwrap();
    txs.deposit(2, 4, dec(20, 0)).unwrap();

    let mut list = txs.accounts();
    list.sort_by_key(|pair| pair.0);
    assert_eq!(list.len(), 3);
    assert_eq!(list[0], (1, Account::new(dec(10, 0), dec(0, 0), false)));
    assert_eq!(list[1], (2, Account::new(dec(20, 0), dec(0, 0), false)));
    assert_eq!(list[2], (3, Account::new(dec(305, 1), dec(0, 0), false)));
}

#[test]
fn test_deposit_is_rounded_where_the_sum_does_not_fit() {
    let mut txs = Txs::new();
    txs.deposit(1, 1, Amount::max()).unwrap();
    assert_eq!(txs.deposit(1, 2, dec(4, 1)), Ok(()));
    assert_eq!(txs.get(1).unwrap().available, Amount::max());
    assert_eq!(txs.deposit(1, 3, dec(5, 1)), Err(Error::MathError));
}

#[test]
fn test_round_trip_is_rounded_where_a_balance_does_not_fit() {
    let mut txs = Txs::new();
    let large = dec(39_614_081_257_132_168_796_771_974_307, 1);
    txs.deposit(1, 1, large).unwrap();
    txs.dispute(1, 1).unwrap();
    txs.deposit(1, 2, dec(1335, 2)).unwrap();
    assert_eq!(txs.get(1), Some(&Account::new(dec(1335, 2), large, false)));

    assert_eq!(txs.try_process_tx(Tx::dispute(1, 2)), Some(Ok(())));
    assert_eq!(
        txs.get(1).unwrap().held,
        dec(39_614_081_257_132_168_796_771_974_440, 1)
    );
    assert_eq!(txs.try_process_tx(Tx::resolve(1, 2)), Some(Ok(())));
    assert_eq!(txs.get(1).unwrap().available, dec(1335, 2));
    assert_eq!(
        txs.get(1).unwrap().held,
        dec(39_614_081_257_132_168_796_771_974_306, 1)
    );
}

#[test]
fn test_zero_and_negative_amounts_are_taken_as_they_are() {
    let mut txs = Txs::new();
    assert_eq!(txs.deposit(1, 1, dec(0, 0)), Ok(()));
    assert_eq!(txs.get(1), Some(&Account::new(dec(0, 0), dec(0, 0), false)));
    assert_eq!(txs.deposit(1, 2, dec(-5, 0)), Ok(()));
    assert_eq!(txs.get(1), Some(&Account::new(dec(-5, 0), dec(0, 0), false)));
    assert_eq!(txs.withdrawal(1, 3, dec(0, 0)), Err(Error::InsuffienctFunds));
    assert_eq!(txs.withdrawal(1, 3, dec(-75, 1)), Ok(()));
    assert_eq!(txs.get(1), Some(&Account::new(dec(25, 1), dec(0, 0), false)));
    assert_eq!(txs.withdrawal(1, 4, dec(0, 0)), Ok(()));
    assert_eq!(txs.get(1), Some(&Account::new(dec(25, 1), dec(0, 0), false)));
}

#[test]
fn test_resolve_and_chargeback_of_a_withdrawal_are_not_disputed() {
    let mut txs = Txs::new();
    txs.deposit(1, 1, dec(30, 0)).unwrap();
    txs.withdrawal(1, 2, dec(10, 0)).unwrap();
    assert_eq!(txs.resolve(1, 2), Err(Error::TxNotDisputed));
    assert_eq!(txs.charge_back(1, 2), Err(Error::TxNotDisputed));
    assert_eq!(txs.get(1), Some(&Account::new(dec(20, 0), dec(0, 0), false)));
}

#[test]
fn test_disputed_deposit_of_another_client_stays_disputed() {
    let mut txs = Txs::new();
    txs.deposit(1, 1, dec(30, 0)).unwrap();
    txs.dispute(1, 1).unwrap();
    assert_eq!(txs.resolve(2, 1), Err(Error::CidMismatch));
    assert_eq!(txs.charge_back(2, 1), Err(Error::CidMismatch));
    assert_eq!(txs.dispute(1, 1), Err(Error::TxAlreadyDisputed));
    assert_eq!(txs.get(1), Some(&Account::new(dec(0, 0), dec(30, 0), false)));
    assert_eq!(txs.charge_back(1, 1), Ok(()));
    assert_eq!(txs.get(1), Some(&Account::new(dec(0, 0), dec(0, 0), true)));
    assert_eq!(txs.get(2), Some(&Account::new(dec(0, 0), dec(0, 0), false)));
}

#[test]
fn test_kind_names() {
    assert_eq!(TxKind::Deposit.name(), "deposit");
    assert_eq!(TxKind::Withdrawal.name(), "withdrawal");
    assert_eq!(TxKind::Dispute.name(), "dispute");
    assert_eq!(TxKind::Resolve.name(), "resolve");
    assert_eq!(TxKind::ChargeBack.name(), "chargeback");

    assert_eq!(TxKind::from_name("deposit"), Some(TxKind::Deposit));
    assert_eq!(TxKind::from_name("withdrawal"), Some(TxKind::Withdrawal));
    assert_eq!(TxKind::from_name("dispute"), Some(TxKind::Dispute));
    assert_eq!(TxKind::from_name("resolve"), Some(TxKind::Resolve));
    assert_eq!(TxKind::from_name("chargeback"), Some(TxKind::ChargeBack));
}

#[test]
fn test_kind_names_in_either_case() {
    assert_eq!(TxKind::from_name("DEPOSIT"), Some(TxKind::Deposit));
    assert_eq!(TxKind::from_name("Withdrawal"), Some(TxKind::Withdrawal));
    assert_eq!(TxKind::from_name("dIsPuTe"), Some(TxKind::Dispute));
    assert_eq!(TxKind::from_name("RESOLVe"), Some(TxKind::Resolve));
    assert_eq!(TxKind::from_name("ChargeBack"), Some(TxKind::ChargeBack));
}

#[test]
fn test_unknown_kind_names() {
    assert_eq!(TxKind::from_name(""), None);
    assert_eq!(TxKind::from_name("deposi"), None);
    assert_eq!(TxKind::from_name("deposits"), None);
    assert_eq!(TxKind::from_name(" deposit"), None);
    assert_eq!(TxKind::from_name("charge_back"), None);
    assert_eq!(TxKind::from_name("depo\u{17f}it"), None);
    assert_eq!(TxKind::from_name("transfer"), None);
    assert_eq!(TxKind::from_name("disposit"), None);
}
