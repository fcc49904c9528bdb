//! The ledger as the contracts see it: two maps, and the step that one
//! transaction makes on them.
//!
//! Nothing here is executable. `Txs` is the executable ledger; its contracts
//! say that it makes exactly these steps.

use crate::account::AccountView;
use crate::amount::Dec;
use crate::error::Error;
use crate::record::Entry;
use crate::rules::{booked, charged_back, disputed, resolved};
use crate::tx::{TxKind, TxView};
use vstd::prelude::*;

verus! {

/// What the dispute, resolve or chargeback `kind` does to the kept
/// transaction `entry` and to `account`, with the balances that the decimal
/// arithmetic gives: a dispute moves the amount from available to held, a
/// resolve moves it back, and a chargeback takes it out of held.
pub open spec fn settled(kind: TxKind, entry: Entry, account: AccountView) -> Option<
    Result<(Entry, AccountView), Error>,
> {
    match kind {
        TxKind::Dispute => disputed(
            entry,
            account,
            account.available.checked_sub(entry.amount),
            account.held.checked_add(entry.amount),
        ),
        TxKind::Resolve => resolved(
            entry,
            account,
            account.available.checked_add(entry.amount),
            account.held.checked_sub(entry.amount),
        ),
        _ => charged_back(entry, account, account.held.checked_sub(entry.amount)),
    }
}

/// The sum of the balance `moved`, where there is one, and the held balance
/// of `account`.
pub open spec fn total_after(account: AccountView, moved: Option<Dec>) -> Option<Dec> {
    match moved {
        Some(available) => available.checked_add(account.held),
        None => None,
    }
}

/// The state of a ledger: the deposits and withdrawals that were accepted, by
/// transaction id, and the accounts, by client.
pub struct Ledger {
    pub history: Map<u32, Entry>,
    pub accounts: Map<u16, AccountView>,
}

impl Ledger {
    /// The ledger with no transaction and no account.
    pub open spec fn empty() -> Ledger {
        Ledger { history: Map::empty(), accounts: Map::empty() }
    }

    /// Whether the ledger is in a state that transactions lead to: it keeps
    /// deposits and withdrawals only, no withdrawal is under dispute, and the
    /// client of every kept transaction has an account.
    pub open spec fn well_formed(self) -> bool {
        forall|txid: u32| #[trigger]
            self.history.contains_key(txid) ==> {
                &&& self.history[txid].kind == TxKind::Deposit || self.history[txid].kind
                    == TxKind::Withdrawal
                &&& self.history[txid].kind == TxKind::Withdrawal ==> !self.history[txid].disputed
                &&& self.accounts.contains_key(self.history[txid].cid)
            }
    }

    /// The account of `cid`: the one that the ledger holds, or a fresh one.
    pub open spec fn account(self, cid: u16) -> AccountView {
        if self.accounts.contains_key(cid) {
            self.accounts[cid]
        } else {
            AccountView::fresh()
        }
    }

    /// The ledger with the account of `cid` opened, if it was not yet.
    pub open spec fn opened(self, cid: u16) -> Ledger {
        Ledger { accounts: self.accounts.insert(cid, self.account(cid)), ..self }
    }

    /// The ledger in which `cid` has the account `account`.
    pub open spec fn with_account(self, cid: u16, account: AccountView) -> Ledger {
        Ledger { accounts: self.accounts.insert(cid, account), ..self }
    }

    /// The ledger in which `txid` has the entry `entry`.
    pub open spec fn with_entry(self, txid: u32, entry: Entry) -> Ledger {
        Ledger { history: self.history.insert(txid, entry), ..self }
    }

    /// The step of the deposit or withdrawal `tx` of `amount` on an account
    /// that is not locked, where `moved` is the balance that it leaves
    /// available: the transaction is kept and the account has `moved`
    /// available, or the transaction is rejected as `booked` says.
    pub open spec fn booking(self, tx: TxView, amount: Dec, moved: Option<Dec>) -> (
        Ledger,
        Result<(), Error>,
    ) {
        match booked(
            self.account(tx.cid),
            moved,
            total_after(self.account(tx.cid), moved),
            tx.kind == TxKind::Withdrawal,
            self.history.contains_key(tx.txid),
        ) {
            Ok(account) => (
                self.with_account(tx.cid, account).with_entry(
                    tx.txid,
                    Entry { kind: tx.kind, cid: tx.cid, amount, disputed: false },
                ),
                Ok(()),
            ),
            Err(e) => (self.opened(tx.cid), Err(e)),
        }
    }

    /// The step of the dispute, resolve or chargeback `tx` on an account that
    /// is not locked: `TxNotFound` where no transaction is kept under the id
    /// that `tx` names, `CidMismatch` where the kept one is of another client,
    /// and else what `settled` says.
    pub open spec fn settlement(self, tx: TxView) -> Option<(Ledger, Result<(), Error>)> {
        if !self.history.contains_key(tx.txid) {
            Some((self.opened(tx.cid), Err(Error::TxNotFound)))
        } else if self.history[tx.txid].cid != tx.cid {
            Some((self.opened(tx.cid), Err(Error::CidMismatch)))
        } else {
            match settled(tx.kind, self.history[tx.txid], self.account(tx.cid)) {
                Some(Ok((entry, account))) => Some(
                    (self.with_account(tx.cid, account).with_entry(tx.txid, entry), Ok(())),
                ),
                Some(Err(e)) => Some((self.opened(tx.cid), Err(e))),
                None => None,
            }
        }
    }

    /// The step that the transaction `tx` makes: the ledger after it, and
    /// whether it was accepted or why it was rejected.
    ///
    /// A rejected transaction changes no balance, no lock and no entry. Unless
    /// it is rejected as `AccountIsLocked` or `InvalidTx`, it still opens the
    /// account of its client, with nothing in it, if there was none.
    ///
    /// The result is `None` where `tx` is a dispute, a resolve or a chargeback
    /// that passes every check, but would take a balance out of the decimal
    /// domain. No step is defined then.
    pub open spec fn step(self, tx: TxView) -> Option<(Ledger, Result<(), Error>)> {
        let account = self.account(tx.cid);
        if account.locked {
            Some((self, Err(Error::AccountIsLocked)))
        } else {
            match (tx.kind, tx.amount) {
                (TxKind::Deposit, Some(amount)) => Some(
                    self.booking(tx, amount, account.available.checked_add(amount)),
                ),
                (TxKind::Withdrawal, Some(amount)) => Some(
                    self.booking(tx, amount, account.available.checked_sub(amount)),
                ),
                (TxKind::Dispute, None) => self.settlement(tx),
                (TxKind::Resolve, None) => self.settlement(tx),
                (TxKind::ChargeBack, None) => self.settlement(tx),
                _ => Some((self, Err(Error::InvalidTx))),
            }
        }
    }

    /// Whether the ledger can take `tx`: whether `step` is defined.
    pub open spec fn in_range(self, tx: TxView) -> bool {
        self.step(tx) is Some
    }

    /// The ledger after `tx`, where the ledger can take it.
    pub open spec fn apply(self, tx: TxView) -> Ledger {
        match self.step(tx) {
            Some((next, _)) => next,
            None => self,
        }
    }

    /// Whether `tx` is accepted, or why not, where the ledger can take it.
    pub open spec fn outcome(self, tx: TxView) -> Option<Result<(), Error>> {
        match self.step(tx) {
            Some((_, result)) => Some(result),
            None => None,
        }
    }

    /// The ledger after the transactions `txs`, taken in order, or `None`
    /// where it cannot take one of them.
    pub open spec fn replay(self, txs: Seq<TxView>) -> Option<Ledger>
        decreases txs.len(),
    {
        if txs.len() == 0 {
            Some(self)
        } else {
            match self.step(txs[0]) {
                Some((next, _)) => next.replay(txs.drop_first()),
                None => None,
            }
        }
    }

    /// The rejections among the transactions `txs`, taken in order: for each
    /// one its line, where the first transaction is on line `line`, and the
    /// reason.
    pub open spec fn rejections(self, txs: Seq<TxView>, line: int) -> Seq<(int, Error)>
        decreases txs.len(),
    {
        if txs.len() == 0 {
            Seq::empty()
        } else {
            match self.step(txs[0]) {
                Some((next, Err(e))) => seq![(line, e)] + next.rejections(
                    txs.drop_first(),
                    line + 1,
                ),
                Some((next, Ok(_))) => next.rejections(txs.drop_first(), line + 1),
                None => Seq::empty(),
            }
        }
    }
}

} // verus!
