//! A whole run: the records of an input go through a new ledger in order, and
//! the accounts come out as the rows of a table.
//!
//! Reading the records from a text and writing the rows to one is left to the
//! caller.

use crate::account::AccountView;
use crate::amount::{view_of, Amount, Dec};
use crate::error::Error;
use crate::laws::lemma_replay_keeps_well_formed;
use crate::ledger::Ledger;
use crate::tx::{Tx, TxView};
use crate::txs::Txs;
use vstd::prelude::*;

verus! {

/// The views of the records of an input.
pub open spec fn records_view(records: Seq<Tx>) -> Seq<TxView> {
    records.map_values(|tx: Tx| tx@)
}

/// The rejections of a run as the contracts see them: lines and reasons.
pub open spec fn rejections_view(rejections: Seq<(usize, Error)>) -> Seq<(int, Error)> {
    rejections.map_values(|r: (usize, Error)| (r.0 as int, r.1))
}

/// Runs the records of an input through a new ledger, in order. A record that
/// the ledger rejects changes no balance, and the run goes on with the next.
///
/// Returns the ledger after the last record, which is well-formed, and the
/// rejections: for each rejected record its line, counted from 1, and the
/// reason. Returns `None`
/// where the ledger cannot take one of the records: a dispute, a resolve or a
/// chargeback that passes every check but would take a balance out of the
/// decimal domain.
pub fn process_transactions(records: &[Tx]) -> (r: Option<(Txs, Vec<(usize, Error)>)>)
    ensures
        match r {
            Some((txs, rejections)) => {
                &&& Ledger::empty().replay(records_view(records@)) == Some(txs@)
                &&& rejections_view(rejections@) == Ledger::empty().rejections(
                    records_view(records@),
                    1,
                )
                &&& txs@.well_formed()
            },
            None => Ledger::empty().replay(records_view(records@)) is None,
        },
{
    let mut txs = Txs::new();
    let mut rejections: Vec<(usize, Error)> = Vec::new();
    let ghost all = records_view(records@);
    let mut i: usize = 0;
    assert(all.skip(0) == all);
    assert(rejections_view(rejections@) + txs@.rejections(all, 1) == txs@.rejections(all, 1));
    while i < records.len()
        invariant
            0 <= i <= records.len(),
            all == records_view(records@),
            Ledger::empty().replay(all) == txs@.replay(all.skip(i as int)),
            Ledger::empty().rejections(all, 1) == rejections_view(rejections@) + txs@.rejections(
                all.skip(i as int),
                i + 1,
            ),
        decreases records.len() - i,
    {
        let ghost rest = all.skip(i as int);
        assert(rest.len() > 0 && rest[0] == records@[i as int]@);
        assert(rest.drop_first() == all.skip(i + 1));
        let ghost earlier = rejections@;
        match txs.try_process_tx(records[i]) {
            Some(Err(e)) => {
                rejections.push((i + 1, e));
                assert(rejections_view(rejections@) == rejections_view(earlier).push(
                    ((i + 1) as int, e),
                ));
            },
            Some(Ok(())) => {},
            None => {
                return None;
            },
        }
        i += 1;
    }
    assert(all.skip(i as int).len() == 0);
    proof {
        lemma_replay_keeps_well_formed(Ledger::empty(), all);
    }
    Some((txs, rejections))
}

/// A row of the table of accounts as the contracts see it.
pub struct RowView {
    pub client: u16,
    pub available: Dec,
    pub held: Dec,
    pub total: Option<Dec>,
    pub locked: bool,
}

impl RowView {
    /// The row of the client `client` with the account `account`.
    pub open spec fn of(client: u16, account: AccountView) -> RowView {
        RowView {
            client,
            available: account.available,
            held: account.held,
            total: account.total(),
            locked: account.locked,
        }
    }
}

/// A row of the table of accounts: a client, the balances of the account,
/// their total, and the lock.
#[derive(Debug, Clone, Copy)]
pub struct Row {
    /// The client.
    pub client: u16,
    /// The funds that the client can withdraw.
    pub available: Amount,
    /// The funds that are held back while a deposit is under dispute.
    pub held: Amount,
    /// `available + held`, or `None` where that sum overflows.
    pub total: Option<Amount>,
    /// Whether the account is locked.
    pub locked: bool,
}

impl View for Row {
    type V = RowView;

    open spec fn view(&self) -> RowView {
        RowView {
            client: self.client,
            available: self.available@,
            held: self.held@,
            total: view_of(self.total),
            locked: self.locked,
        }
    }
}

/// The names of the columns of the table of accounts, in their order.
pub fn header() -> (names: [&'static str; 5])
    ensures
        names[0]@ == "client"@,
        names[1]@ == "available"@,
        names[2]@ == "held"@,
        names[3]@ == "total"@,
        names[4]@ == "locked"@,
{
    ["client", "available", "held", "total", "locked"]
}

/// The table of accounts: one row for each client that the ledger holds an
/// account of, with the balances, their total and the lock. The rows come in
/// no particular order.
pub fn write_transactions(txs: &Txs) -> (rows: Vec<Row>)
    ensures
        rows@.len() == txs@.accounts.len(),
        forall|i: int|
            0 <= i < rows@.len() ==> txs@.accounts.contains_key(#[trigger] rows@[i].client)
                && rows@[i]@ == RowView::of(rows@[i].client, txs@.accounts[rows@[i].client]),
        forall|cid: u16|
            txs@.accounts.contains_key(cid) ==> exists|i: int|
                0 <= i < rows@.len() && #[trigger] rows@[i].client == cid,
        forall|i: int, j: int| 0 <= i < j < rows@.len() ==> rows@[i].client != rows@[j].client,
{
    let accounts = txs.accounts();
    let mut rows: Vec<Row> = Vec::new();
    let mut i: usize = 0;
    while i < accounts.len()
        invariant
            0 <= i <= accounts.len(),
            rows@.len() == i,
            forall|k: int|
                0 <= k < accounts@.len() ==> txs@.accounts.contains_key(#[trigger] accounts@[k].0)
                    && txs@.accounts[accounts@[k].0] == accounts@[k].1@,
            forall|k: int|
                0 <= k < i ==> (#[trigger] rows@[k])@ == RowView::of(
                    accounts@[k].0,
                    accounts@[k].1@,
                ),
        decreases accounts.len() - i,
    {
        let (client, account) = accounts[i];
        rows.push(
            Row {
                client,
                available: account.available,
                held: account.held,
                total: account.total(),
                locked: account.locked,
            },
        );
        i += 1;
    }
    assert forall|cid: u16| txs@.accounts.contains_key(cid) implies exists|i: int|
        0 <= i < rows@.len() && #[trigger] rows@[i].client == cid by {
        let k = choose|k: int| 0 <= k < accounts@.len() && #[trigger] accounts@[k].0 == cid;
        assert(rows@[k].client == cid);
    }
    assert forall|i: int, j: int| 0 <= i < j < rows@.len() implies rows@[i].client
        != rows@[j].client by {
        assert(rows@[i]@.client == accounts@[i].0);
        assert(rows@[j]@.client == accounts@[j].0);
    }
    rows
}

} // verus!
