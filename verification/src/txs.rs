//! The executable ledger.

use crate::account::Account;
use crate::amount::{view_of, Amount};
use crate::error::Error;
use crate::ledger::{settled, Ledger};
use crate::record::Record;
use crate::rules::{book, charge_back, dispute, resolve, settlement_view};
use crate::tx::{Tx, TxKind, TxView};
use std::collections::HashMap;
use vstd::prelude::*;

verus! {

broadcast use vstd::std_specs::hash::group_hash_axioms;

/// Mapping the values of a map and then setting a key is setting the key and
/// then mapping the values.
proof fn lemma_map_values_insert<K, V, W>(m: Map<K, V>, k: K, v: V, f: spec_fn(V) -> W)
    ensures
        m.insert(k, v).map_values(f) == m.map_values(f).insert(k, f(v)),
{
    assert(m.insert(k, v).map_values(f) =~= m.map_values(f).insert(k, f(v)));
}

/// The ledger: the accepted deposits and withdrawals by transaction id, and
/// the accounts by client. Transactions go in one at a time, and each is
/// either applied as a whole or rejected.
#[derive(Debug)]
pub struct Txs {
    txs: HashMap<u32, Record>,
    accounts: HashMap<u16, Account>,
}

impl View for Txs {
    type V = Ledger;

    closed spec fn view(&self) -> Ledger {
        Ledger {
            history: self.txs@.map_values(|r: Record| r@),
            accounts: self.accounts@.map_values(|a: Account| a@),
        }
    }
}

impl Txs {
    /// A ledger with no transaction and no account.
    pub fn new() -> (txs: Txs)
        ensures
            txs@ == Ledger::empty(),
    {
        let txs = Txs { txs: HashMap::new(), accounts: HashMap::new() };
        assert(txs@.history =~= Map::empty());
        assert(txs@.accounts =~= Map::empty());
        txs
    }

    /// The account of the client `cid`, or `None` if no transaction has
    /// opened it.
    pub fn get(&self, cid: u16) -> (account: Option<&Account>)
        ensures
            match account {
                Some(a) => self@.accounts.contains_key(cid) && self@.accounts[cid] == a@,
                None => !self@.accounts.contains_key(cid),
            },
    {
        self.accounts.get(&cid)
    }

    /// The accounts with their clients, each client once, in no particular
    /// order.
    pub fn accounts(&self) -> (list: Vec<(u16, Account)>)
        ensures
            list@.len() == self@.accounts.len(),
            forall|i: int|
                0 <= i < list@.len() ==> self@.accounts.contains_key(#[trigger] list@[i].0)
                    && self@.accounts[list@[i].0] == list@[i].1@,
            forall|cid: u16|
                self@.accounts.contains_key(cid) ==> exists|i: int|
                    0 <= i < list@.len() && #[trigger] list@[i].0 == cid,
            forall|i: int, j: int| 0 <= i < j < list@.len() ==> list@[i].0 != list@[j].0,
    {
        let mut list: Vec<(u16, Account)> = Vec::new();
        for pair in it: self.accounts.iter()
            invariant
                list@.len() == it.index(),
                it.seq().len() == self.accounts@.len(),
                it.seq().no_duplicates(),
                forall|i: int|
                    0 <= i < it.seq().len() ==> self.accounts@.contains_key(*it.seq()[i].0)
                        && self.accounts@[*it.seq()[i].0] == *it.seq()[i].1,
                forall|cid: u16|
                    self.accounts@.contains_key(cid) ==> exists|i: int|
                        0 <= i < it.seq().len() && *(#[trigger] it.seq()[i]).0 == cid,
                forall|i: int|
                    0 <= i < list@.len() ==> list@[i].0 == *it.seq()[i].0 && list@[i].1
                        == *it.seq()[i].1,
        {
            let (cid, account) = pair;
            list.push((*cid, *account));
        }
        assert(self@.accounts.dom() =~= self.accounts@.dom());
        list
    }

    /// Applies a deposit of `amount` by the client `cid` under the id `txid`.
    ///
    /// In this order: a locked account rejects it with `AccountIsLocked`; an
    /// overflow of `available + amount` with `MathError`; an id that is in
    /// the history with `TxAlreadyExists`; an overflow of the new total,
    /// `available + held`, with `MathError`. Otherwise the deposit is kept
    /// under `txid` and `available` grows by `amount`.
    pub fn deposit(&mut self, cid: u16, txid: u32, amount: Amount) -> (r: Result<(), Error>)
        ensures
            old(self)@.step(TxView::deposit(cid, txid, amount@)) == Some((final(self)@, r)),
    {
        let account = self.account(cid);
        if account.locked {
            return Err(Error::AccountIsLocked);
        }
        let moved = account.available.checked_add(amount);
        self.process_operation(Tx::deposit(cid, txid, amount), amount, moved)
    }

    /// Applies a withdrawal of `amount` by the client `cid` under the id
    /// `txid`.
    ///
    /// In this order: a locked account rejects it with `AccountIsLocked`; an
    /// overflow of `available - amount` with `MathError`; a balance that
    /// would fall below zero with `InsuffienctFunds`; an id that is in the
    /// history with `TxAlreadyExists`; an overflow of the new total with
    /// `MathError`. Otherwise the withdrawal is kept under `txid` and
    /// `available` shrinks by `amount`.
    pub fn withdrawal(&mut self, cid: u16, txid: u32, amount: Amount) -> (r: Result<(), Error>)
        ensures
            old(self)@.step(TxView::withdrawal(cid, txid, amount@)) == Some((final(self)@, r)),
    {
        let account = self.account(cid);
        if account.locked {
            return Err(Error::AccountIsLocked);
        }
        let moved = account.available.checked_sub(amount);
        self.process_operation(Tx::withdrawal(cid, txid, amount), amount, moved)
    }

    /// Applies a dispute by the client `cid` of the transaction `txid`.
    ///
    /// In this order: a locked account rejects it with `AccountIsLocked`; an
    /// id that is not in the history with `TxNotFound`; a transaction of
    /// another client with `CidMismatch`; a withdrawal with
    /// `TxMustBeDeposit`; a deposit that is under dispute with
    /// `TxAlreadyDisputed`. Otherwise the amount of the deposit moves from
    /// `available` to `held` and the deposit is under dispute.
    ///
    /// The two balances are moved unchecked: the caller sees to it that they
    /// stay in the decimal domain, which `in_range` tests.
    pub fn dispute(&mut self, cid: u16, txid: u32) -> (r: Result<(), Error>)
        requires
            old(self)@.in_range(TxView::dispute(cid, txid)),
        ensures
            old(self)@.step(TxView::dispute(cid, txid)) == Some((final(self)@, r)),
    {
        if self.account(cid).locked {
            return Err(Error::AccountIsLocked);
        }
        self.with_tx(Tx::dispute(cid, txid))
    }

    /// Applies a resolve by the client `cid` of the dispute of the
    /// transaction `txid`.
    ///
    /// In this order: a locked account rejects it with `AccountIsLocked`; an
    /// id that is not in the history with `TxNotFound`; a transaction of
    /// another client with `CidMismatch`; one that is not under dispute with
    /// `TxNotDisputed`. Otherwise the amount of the deposit moves back from
    /// `held` to `available` and the dispute is over.
    ///
    /// The two balances are moved unchecked: the caller sees to it that they
    /// stay in the decimal domain, which `in_range` tests.
    pub fn resolve(&mut self, cid: u16, txid: u32) -> (r: Result<(), Error>)
        requires
            old(self)@.in_range(TxView::resolve(cid, txid)),
        ensures
            old(self)@.step(TxView::resolve(cid, txid)) == Some((final(self)@, r)),
    {
        if self.account(cid).locked {
            return Err(Error::AccountIsLocked);
        }
        self.with_tx(Tx::resolve(cid, txid))
    }

    /// Applies a chargeback by the client `cid` of the disputed transaction
    /// `txid`.
    ///
    /// In this order: a locked account rejects it with `AccountIsLocked`; an
    /// id that is not in the history with `TxNotFound`; a transaction of
    /// another client with `CidMismatch`; one that is not under dispute with
    /// `TxNotDisputed`. Otherwise the amount of the deposit leaves `held`,
    /// the dispute is over and the account is locked.
    ///
    /// The balance is moved unchecked: the caller sees to it that it stays
    /// in the decimal domain, which `in_range` tests.
    pub fn charge_back(&mut self, cid: u16, txid: u32) -> (r: Result<(), Error>)
        requires
            old(self)@.in_range(TxView::charge_back(cid, txid)),
        ensures
            old(self)@.step(TxView::charge_back(cid, txid)) == Some((final(self)@, r)),
    {
        if self.account(cid).locked {
            return Err(Error::AccountIsLocked);
        }
        self.with_tx(Tx::charge_back(cid, txid))
    }

    /// Applies the transaction `tx`: makes the step that `Ledger::step`
    /// defines for it, and returns whether it was accepted.
    ///
    /// A transaction whose kind and amount do not fit (a deposit or
    /// withdrawal without an amount, another kind with one) is rejected with
    /// `InvalidTx`, or with `AccountIsLocked` where the account is locked.
    /// A rejected transaction changes no balance, no lock and no kept
    /// transaction.
    ///
    /// The ledger must be able to take `tx`, which `in_range` tests;
    /// `try_process_tx` tests it by itself.
    pub fn process_tx(&mut self, tx: Tx) -> (r: Result<(), Error>)
        requires
            old(self)@.in_range(tx@),
        ensures
            old(self)@.step(tx@) == Some((final(self)@, r)),
    {
        match (tx.kind, tx.amount) {
            (TxKind::Deposit, Some(amount)) => self.deposit(tx.cid, tx.txid, amount),
            (TxKind::Withdrawal, Some(amount)) => self.withdrawal(tx.cid, tx.txid, amount),
            (TxKind::Dispute, None) => self.dispute(tx.cid, tx.txid),
            (TxKind::Resolve, None) => self.resolve(tx.cid, tx.txid),
            (TxKind::ChargeBack, None) => self.charge_back(tx.cid, tx.txid),
            _ => {
                if self.account(tx.cid).locked {
                    Err(Error::AccountIsLocked)
                } else {
                    Err(Error::InvalidTx)
                }
            },
        }
    }

    /// Applies the transaction `tx` if the ledger can take it, and returns
    /// whether it was accepted. Returns `None`, and changes nothing, where
    /// `tx` is a dispute, a resolve or a chargeback that passes every check
    /// but would take a balance out of the decimal domain.
    pub fn try_process_tx(&mut self, tx: Tx) -> (r: Option<Result<(), Error>>)
        ensures
            match r {
                Some(result) => old(self)@.step(tx@) == Some((final(self)@, result)),
                None => old(self)@.step(tx@) is None && final(self)@ == old(self)@,
            },
    {
        if self.in_range(&tx) {
            Some(self.process_tx(tx))
        } else {
            None
        }
    }

    /// Whether the ledger can take `tx`. It can take every deposit and
    /// withdrawal, and every transaction that it rejects; it cannot take a
    /// dispute, a resolve or a chargeback that passes every check but would
    /// take a balance out of the decimal domain.
    pub fn in_range(&self, tx: &Tx) -> (b: bool)
        ensures
            b == self@.in_range(tx@),
    {
        let account = self.account(tx.cid);
        if account.locked {
            return true;
        }
        match (tx.kind, tx.amount) {
            (TxKind::Dispute, None) | (TxKind::Resolve, None) | (TxKind::ChargeBack, None) => {
                match self.txs.get(&tx.txid) {
                    Some(record) => record.cid != tx.cid || Txs::settle(
                        tx.kind,
                        *record,
                        account,
                    ).is_some(),
                    None => true,
                }
            },
            _ => true,
        }
    }

    /// The account of `cid`: the one that the ledger holds, or a fresh one.
    fn account(&self, cid: u16) -> (account: Account)
        ensures
            account@ == self@.account(cid),
    {
        match self.accounts.get(&cid) {
            Some(account) => *account,
            None => Account::default(),
        }
    }

    /// Sets the account of `cid`.
    fn set_account(&mut self, cid: u16, account: Account)
        ensures
            final(self)@ == old(self)@.with_account(cid, account@),
    {
        proof {
            lemma_map_values_insert(self.accounts@, cid, account, |a: Account| a@);
        }
        self.accounts.insert(cid, account);
    }

    /// Sets the record of `txid`.
    fn set_record(&mut self, txid: u32, record: Record)
        ensures
            final(self)@ == old(self)@.with_entry(txid, record@),
    {
        proof {
            lemma_map_values_insert(self.txs@, txid, record, |r: Record| r@);
        }
        self.txs.insert(txid, record);
    }

    /// Books a deposit or withdrawal `tx` of `amount` on an account that is
    /// not locked, where `moved` is the balance that it leaves available.
    fn process_operation(&mut self, tx: Tx, amount: Amount, moved: Option<Amount>) -> (r: Result<
        (),
        Error,
    >)
        ensures
            old(self)@.booking(tx@, amount@, view_of(moved)) == (final(self)@, r),
    {
        let account = self.account(tx.cid);
        self.set_account(tx.cid, account);
        let total = match moved {
            Some(available) => available.checked_add(account.held),
            None => None,
        };
        let known = self.txs.contains_key(&tx.txid);
        match book(account, moved, total, tx.kind == TxKind::Withdrawal, known) {
            Ok(account) => {
                self.set_record(
                    tx.txid,
                    Record { kind: tx.kind, cid: tx.cid, amount, disputed: false },
                );
                self.set_account(tx.cid, account);
                assert(self@.accounts =~= old(self)@.accounts.insert(tx.cid, account@));
                Ok(())
            },
            Err(e) => Err(e),
        }
    }

    /// Finds the transaction that the dispute, resolve or chargeback `tx`
    /// names, on an account that is not locked, and settles it.
    fn with_tx(&mut self, tx: Tx) -> (r: Result<(), Error>)
        requires
            old(self)@.settlement(tx@) is Some,
        ensures
            old(self)@.settlement(tx@) == Some((final(self)@, r)),
    {
        let account = self.account(tx.cid);
        self.set_account(tx.cid, account);
        let found = match self.txs.get(&tx.txid) {
            Some(record) => Some(*record),
            None => None,
        };
        match found {
            Some(record) => {
                if record.cid == tx.cid {
                    match Txs::settle(tx.kind, record, account).unwrap() {
                        Ok((record, account)) => {
                            self.set_account(tx.cid, account);
                            self.set_record(tx.txid, record);
                            assert(self@.accounts =~= old(self)@.accounts.insert(
                                tx.cid,
                                account@,
                            ));
                            Ok(())
                        },
                        Err(e) => Err(e),
                    }
                } else {
                    Err(Error::CidMismatch)
                }
            },
            None => Err(Error::TxNotFound),
        }
    }

    /// What the dispute, resolve or chargeback `kind` does to `record` and
    /// `account`, with the balances that the decimal arithmetic gives, or
    /// `None` where a balance would leave the decimal domain.
    fn settle(kind: TxKind, record: Record, account: Account) -> (r: Option<
        Result<(Record, Account), Error>,
    >)
        ensures
            settlement_view(r) == settled(kind, record@, account@),
    {
        match kind {
            TxKind::Dispute => dispute(
                record,
                account,
                account.available.checked_sub(record.amount),
                account.held.checked_add(record.amount),
            ),
            TxKind::Resolve => resolve(
                record,
                account,
                account.available.checked_add(record.amount),
                account.held.checked_sub(record.amount),
            ),
            _ => charge_back(record, account, account.held.checked_sub(record.amount)),
        }
    }
}

impl Default for Txs {
    /// A ledger with no transaction and no account.
    fn default() -> (txs: Txs)
        ensures
            txs@ == Ledger::empty(),
    {
        Txs::new()
    }
}

} // verus!
