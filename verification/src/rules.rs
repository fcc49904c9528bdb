//! The rules of the ledger, as functions of plain values: what a deposit or
//! withdrawal does to an account, and what a dispute, a resolve and a
//! chargeback do to a kept transaction and an account.
//!
//! The balances that a rule needs are computed by the caller and handed in,
//! so a rule says what happens for every outcome of the arithmetic.

use crate::account::{Account, AccountView};
use crate::amount::{view_of, Amount, Dec};
use crate::error::Error;
use crate::record::{Entry, Record};
use crate::tx::TxKind;
use vstd::prelude::*;

verus! {

/// What a deposit or a withdrawal does to an account.
///
/// `moved` is the balance that the movement leaves available, `None` where
/// computing it overflowed. `total` is the sum of `moved` and the held
/// balance, `None` where that overflowed. `floor` says that `moved` must not
/// be below zero, which is asked of a withdrawal. `known` says that the
/// transaction id is in the history already.
///
/// In this order: `MathError` without `moved`; `InsuffienctFunds` where
/// `floor` holds and `moved` is below zero; `TxAlreadyExists` where `known`
/// holds; `MathError` without `total`. Otherwise the account has `moved`
/// available, and is as it was beside that.
pub open spec fn booked(
    account: AccountView,
    moved: Option<Dec>,
    total: Option<Dec>,
    floor: bool,
    known: bool,
) -> Result<AccountView, Error> {
    match moved {
        None => Err(Error::MathError),
        Some(available) => {
            if floor && available.is_negative() {
                Err(Error::InsuffienctFunds)
            } else if known {
                Err(Error::TxAlreadyExists)
            } else if total is None {
                Err(Error::MathError)
            } else {
                Ok(AccountView { available, ..account })
            }
        },
    }
}

/// The kept transaction and the account after a settlement that passed its
/// checks, where `available` and `held` are the balances that the account
/// would have, `disputed` says whether the transaction is under dispute
/// then, and `locked` whether the account is locked then. The result is
/// `None` where a balance is missing.
pub open spec fn committed(
    entry: Entry,
    available: Option<Dec>,
    held: Option<Dec>,
    disputed: bool,
    locked: bool,
) -> Option<Result<(Entry, AccountView), Error>> {
    match (available, held) {
        (Some(available), Some(held)) => Some(
            Ok((Entry { disputed, ..entry }, AccountView { available, held, locked })),
        ),
        _ => None,
    }
}

/// What a dispute does to the kept transaction that it names and to the
/// account of its client.
///
/// `available` and `held` are the balances that the account would have after
/// the dispute, `None` where computing one overflowed.
///
/// In this order: `TxMustBeDeposit` for a transaction that is no deposit;
/// `TxAlreadyDisputed` for one that is under dispute. Otherwise the account
/// has the two balances and the transaction is under dispute. Where a
/// balance is missing then, the result is `None`: the balances of a dispute
/// are not checked for overflow, and the ledger does not take such a dispute
/// at all.
pub open spec fn disputed(
    entry: Entry,
    account: AccountView,
    available: Option<Dec>,
    held: Option<Dec>,
) -> Option<Result<(Entry, AccountView), Error>> {
    if entry.kind != TxKind::Deposit {
        Some(Err(Error::TxMustBeDeposit))
    } else if entry.disputed {
        Some(Err(Error::TxAlreadyDisputed))
    } else {
        committed(entry, available, held, true, account.locked)
    }
}

/// What a resolve does to the kept transaction that it names and to the
/// account of its client.
///
/// `available` and `held` are the balances that the account would have after
/// the resolve, `None` where computing one overflowed.
///
/// `TxNotDisputed` for a transaction that is not under dispute. Otherwise
/// the account has the two balances and the dispute is over. Where a
/// balance is missing then, the result is `None`, as for a dispute.
pub open spec fn resolved(
    entry: Entry,
    account: AccountView,
    available: Option<Dec>,
    held: Option<Dec>,
) -> Option<Result<(Entry, AccountView), Error>> {
    if !entry.disputed {
        Some(Err(Error::TxNotDisputed))
    } else {
        committed(entry, available, held, false, account.locked)
    }
}

/// What a chargeback does to the kept transaction that it names and to the
/// account of its client.
///
/// `held` is the balance that the account would hold after the chargeback,
/// `None` where computing it overflowed.
///
/// `TxNotDisputed` for a transaction that is not under dispute. Otherwise
/// the account holds `held`, has available what it had, and is locked, and
/// the dispute is over. Where `held` is missing then, the result is `None`,
/// as for a dispute.
pub open spec fn charged_back(entry: Entry, account: AccountView, held: Option<Dec>) -> Option<
    Result<(Entry, AccountView), Error>,
> {
    if !entry.disputed {
        Some(Err(Error::TxNotDisputed))
    } else {
        committed(entry, Some(account.available), held, false, true)
    }
}

/// The view of a settlement that may be missing or rejected.
pub open spec fn settlement_view(s: Option<Result<(Record, Account), Error>>) -> Option<
    Result<(Entry, AccountView), Error>,
> {
    match s {
        Some(Ok((record, account))) => Some(Ok((record@, account@))),
        Some(Err(e)) => Some(Err(e)),
        None => None,
    }
}

/// What a deposit or a withdrawal does to `account`, where `moved` is the
/// balance that it leaves available and `total` the sum of that and the held
/// balance; see `booked`.
pub fn book(
    account: Account,
    moved: Option<Amount>,
    total: Option<Amount>,
    floor: bool,
    known: bool,
) -> (r: Result<Account, Error>)
    ensures
        match r {
            Ok(a) => booked(account@, view_of(moved), view_of(total), floor, known) == Ok::<
                AccountView,
                Error,
            >(a@),
            Err(e) => booked(account@, view_of(moved), view_of(total), floor, known) == Err::<
                AccountView,
                Error,
            >(e),
        },
{
    match moved {
        Some(available) => {
            if floor && available.is_negative() {
                Err(Error::InsuffienctFunds)
            } else if known {
                Err(Error::TxAlreadyExists)
            } else if total.is_some() {
                Ok(Account { available, ..account })
            } else {
                Err(Error::MathError)
            }
        },
        None => Err(Error::MathError),
    }
}

/// The record and the account after a settlement that passed its checks,
/// or `None` where a balance is missing; see `committed`.
fn commit(
    record: Record,
    available: Option<Amount>,
    held: Option<Amount>,
    disputed: bool,
    locked: bool,
) -> (r: Option<Result<(Record, Account), Error>>)
    ensures
        settlement_view(r) == committed(
            record@,
            view_of(available),
            view_of(held),
            disputed,
            locked,
        ),
{
    match (available, held) {
        (Some(available), Some(held)) => Some(
            Ok((Record { disputed, ..record }, Account { available, held, locked })),
        ),
        _ => None,
    }
}

/// What a dispute does to `record` and `account`, where `available` and
/// `held` are the balances that the account would have after it; see
/// `disputed`.
pub fn dispute(
    record: Record,
    account: Account,
    available: Option<Amount>,
    held: Option<Amount>,
) -> (r: Option<Result<(Record, Account), Error>>)
    ensures
        settlement_view(r) == disputed(record@, account@, view_of(available), view_of(held)),
{
    if record.kind != TxKind::Deposit {
        Some(Err(Error::TxMustBeDeposit))
    } else if record.disputed {
        Some(Err(Error::TxAlreadyDisputed))
    } else {
        commit(record, available, held, true, account.locked)
    }
}

/// What a resolve does to `record` and `account`, where `available` and
/// `held` are the balances that the account would have after it; see
/// `resolved`.
pub fn resolve(
    record: Record,
    account: Account,
    available: Option<Amount>,
    held: Option<Amount>,
) -> (r: Option<Result<(Record, Account), Error>>)
    ensures
        settlement_view(r) == resolved(record@, account@, view_of(available), view_of(held)),
{
    if !record.disputed {
        Some(Err(Error::TxNotDisputed))
    } else {
        commit(record, available, held, false, account.locked)
    }
}

/// What a chargeback does to `record` and `account`, where `held` is the
/// balance that the account would hold after it; see `charged_back`.
pub fn charge_back(record: Record, account: Account, held: Option<Amount>) -> (r: Option<
    Result<(Record, Account), Error>,
>)
    ensures
        settlement_view(r) == charged_back(record@, account@, view_of(held)),
{
    if !record.disputed {
        Some(Err(Error::TxNotDisputed))
    } else {
        commit(record, Some(account.available), held, false, true)
    }
}

} // verus!
