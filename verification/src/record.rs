//! Deposits and withdrawals as the ledger keeps them.

use crate::amount::{Amount, Dec};
use crate::tx::TxKind;
use vstd::prelude::*;

verus! {

/// A kept deposit or withdrawal as the contracts see it.
pub struct Entry {
    /// `Deposit` or `Withdrawal`: no other kind is kept.
    pub kind: TxKind,
    /// The client that made the transaction.
    pub cid: u16,
    /// The amount that was moved.
    pub amount: Dec,
    /// Whether the transaction is under dispute now.
    pub disputed: bool,
}

/// A deposit or withdrawal that the ledger has accepted and keeps under its
/// transaction id.
#[derive(Debug, Clone, Copy)]
pub struct Record {
    /// `Deposit` or `Withdrawal`: no other kind is kept.
    pub kind: TxKind,
    /// The client that made the transaction.
    pub cid: u16,
    /// The amount that was moved.
    pub amount: Amount,
    /// Whether the transaction is under dispute now.
    pub disputed: bool,
}

impl View for Record {
    type V = Entry;

    open spec fn view(&self) -> Entry {
        Entry { kind: self.kind, cid: self.cid, amount: self.amount@, disputed: self.disputed }
    }
}

} // verus!
