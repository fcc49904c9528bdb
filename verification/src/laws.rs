//! What holds of every ledger, proved from the definition of its step.
//!
//! The decimal arithmetic rounds a sum or a difference that does not fit the
//! domain, so a law that speaks of numbers asks that the movements it speaks
//! of are computed exactly (`Dec::adds_exactly`, `Dec::subtracts_exactly`).

use crate::amount::{lemma_pow10_positive, pow10, Dec};
use crate::decimal::MAX_SCALE;
use crate::error::Error;
use crate::ledger::Ledger;
use crate::record::Entry;
use crate::tx::{TxKind, TxView};
use vstd::prelude::*;

verus! {

/// Whether `tx` is a deposit or a withdrawal with its amount.
pub open spec fn is_movement(tx: TxView) -> bool {
    (tx.kind == TxKind::Deposit || tx.kind == TxKind::Withdrawal) && tx.amount is Some
}

/// Whether the ledger computes the balance that the movement `tx` leaves
/// available without overflow and without rounding.
pub open spec fn moves_exactly(ledger: Ledger, tx: TxView) -> bool {
    if tx.kind == TxKind::Deposit {
        ledger.account(tx.cid).available.adds_exactly(tx.amount->0)
    } else {
        ledger.account(tx.cid).available.subtracts_exactly(tx.amount->0)
    }
}

/// Whether every transaction of `txs`, taken in order from `ledger` on, is a
/// deposit or a withdrawal that is accepted and computed exactly.
pub open spec fn all_accepted_exactly(ledger: Ledger, txs: Seq<TxView>) -> bool
    decreases txs.len(),
{
    txs.len() == 0 || {
        &&& is_movement(txs[0])
        &&& moves_exactly(ledger, txs[0])
        &&& ledger.outcome(txs[0]) == Some(Ok::<(), Error>(()))
        &&& all_accepted_exactly(ledger.apply(txs[0]), txs.drop_first())
    }
}

/// What the movements of the client `cid` among `txs` add up to, in units of
/// `10^-28`: its deposits less its withdrawals.
pub open spec fn net_units(txs: Seq<TxView>, cid: u16) -> int
    decreases txs.len(),
{
    if txs.len() == 0 {
        0
    } else {
        let first = if txs[0].cid != cid {
            0
        } else if txs[0].kind == TxKind::Deposit {
            txs[0].amount->0.units()
        } else {
            -txs[0].amount->0.units()
        };
        first + net_units(txs.drop_first(), cid)
    }
}

/// Opening an account that is open changes nothing.
proof fn lemma_opened_again(ledger: Ledger, cid: u16)
    requires
        ledger.accounts.contains_key(cid),
    ensures
        ledger.opened(cid) == ledger,
{
    assert(ledger.opened(cid).accounts =~= ledger.accounts);
}

/// A rejected transaction changes no entry and no account; at most it opens
/// the account of its client, with nothing in it.
pub proof fn lemma_rejection_changes_nothing(ledger: Ledger, tx: TxView, cid: u16)
    requires
        ledger.step(tx) is Some,
        ledger.outcome(tx)->0 is Err,
    ensures
        ledger.apply(tx).history == ledger.history,
        ledger.apply(tx).account(cid) == ledger.account(cid),
        ledger.apply(tx) == ledger || ledger.apply(tx) == ledger.opened(tx.cid),
{
}

/// A transaction leaves the accounts of all clients but its own as they are.
pub proof fn lemma_other_accounts_stay(ledger: Ledger, tx: TxView, cid: u16)
    requires
        ledger.step(tx) is Some,
        tx.cid != cid,
    ensures
        ledger.apply(tx).account(cid) == ledger.account(cid),
        ledger.apply(tx).accounts.contains_key(cid) == ledger.accounts.contains_key(cid),
{
}

/// A new ledger is well-formed, and every transaction that a well-formed
/// ledger takes leaves it well-formed: the ledger keeps deposits and
/// withdrawals only, no withdrawal comes under dispute, and the client of
/// every kept transaction has an account.
pub proof fn lemma_step_keeps_well_formed(ledger: Ledger, tx: TxView)
    requires
        ledger.well_formed(),
        ledger.step(tx) is Some,
    ensures
        Ledger::empty().well_formed(),
        ledger.apply(tx).well_formed(),
{
    let next = ledger.apply(tx);
    assert forall|txid: u32| #[trigger] next.history.contains_key(txid) implies {
        &&& next.history[txid].kind == TxKind::Deposit || next.history[txid].kind
            == TxKind::Withdrawal
        &&& next.history[txid].kind == TxKind::Withdrawal ==> !next.history[txid].disputed
        &&& next.accounts.contains_key(next.history[txid].cid)
    } by {
        if ledger.history.contains_key(txid) {
            assert(ledger.accounts.contains_key(ledger.history[txid].cid));
        }
    }
}

/// Whatever transactions a well-formed ledger takes, it stays well-formed.
pub proof fn lemma_replay_keeps_well_formed(ledger: Ledger, txs: Seq<TxView>)
    requires
        ledger.well_formed(),
        ledger.replay(txs) is Some,
    ensures
        ledger.replay(txs)->0.well_formed(),
    decreases txs.len(),
{
    if txs.len() > 0 {
        lemma_step_keeps_well_formed(ledger, txs[0]);
        lemma_replay_keeps_well_formed(ledger.apply(txs[0]), txs.drop_first());
    }
}

/// The ledger forgets nothing: a transaction that it keeps stays kept, with
/// its kind, client and amount, and an account that is open stays open.
pub proof fn lemma_nothing_is_forgotten(ledger: Ledger, tx: TxView, txid: u32, cid: u16)
    requires
        ledger.step(tx) is Some,
    ensures
        ledger.history.contains_key(txid) ==> {
            &&& ledger.apply(tx).history.contains_key(txid)
            &&& ledger.apply(tx).history[txid].kind == ledger.history[txid].kind
            &&& ledger.apply(tx).history[txid].cid == ledger.history[txid].cid
            &&& ledger.apply(tx).history[txid].amount == ledger.history[txid].amount
        },
        ledger.accounts.contains_key(cid) ==> ledger.apply(tx).accounts.contains_key(cid),
{
}

/// An accepted deposit or withdrawal is kept under its id, not under
/// dispute, and changes what its client has available to what the decimal
/// arithmetic computes; what is held and the lock stay. It leaves a total
/// that does not overflow, and a withdrawal leaves nothing below zero
/// available.
pub proof fn lemma_accepted_movement(ledger: Ledger, tx: TxView)
    requires
        is_movement(tx),
        ledger.outcome(tx) == Some(Ok::<(), Error>(())),
    ensures
        ({
            let before = ledger.account(tx.cid);
            let after = ledger.apply(tx).account(tx.cid);
            &&& !ledger.history.contains_key(tx.txid)
            &&& ledger.apply(tx).history == ledger.history.insert(
                tx.txid,
                Entry { kind: tx.kind, cid: tx.cid, amount: tx.amount->0, disputed: false },
            )
            &&& tx.kind == TxKind::Deposit ==> Some(after.available)
                == before.available.checked_add(tx.amount->0)
            &&& tx.kind == TxKind::Withdrawal ==> Some(after.available)
                == before.available.checked_sub(tx.amount->0)
            &&& tx.kind == TxKind::Withdrawal ==> !after.available.is_negative()
            &&& after.held == before.held
            &&& !before.locked && !after.locked
            &&& after.total() is Some
        }),
{
}

/// A deposit that was accepted is rejected with `TxAlreadyExists` when it
/// comes again, and changes nothing then: the balance shows it once.
///
/// This asks that the balance could take the amount once more. Where adding
/// it again overflows, the second deposit is rejected with `MathError`, since
/// the sum is checked before the id.
pub proof fn lemma_deposit_twice(ledger: Ledger, cid: u16, txid: u32, amount: Dec)
    requires
        ledger.outcome(TxView::deposit(cid, txid, amount)) == Some(Ok::<(), Error>(())),
        ledger.apply(TxView::deposit(cid, txid, amount)).account(cid).available.checked_add(
            amount,
        ) is Some,
    ensures
        ({
            let tx = TxView::deposit(cid, txid, amount);
            let once = ledger.apply(tx);
            &&& once.step(tx) == Some((once, Err::<(), Error>(Error::TxAlreadyExists)))
            &&& Some(once.account(cid).available) == ledger.account(cid).available.checked_add(
                amount,
            )
        }),
{
    let tx = TxView::deposit(cid, txid, amount);
    lemma_opened_again(ledger.apply(tx), cid);
}

/// After deposits and withdrawals that were all accepted and computed
/// exactly, what a client has available is what it had before, plus its
/// deposits, less its withdrawals.
pub proof fn lemma_conservation(ledger: Ledger, txs: Seq<TxView>, cid: u16)
    requires
        all_accepted_exactly(ledger, txs),
    ensures
        ledger.replay(txs) is Some,
        ledger.replay(txs)->0.account(cid).available.units() == ledger.account(
            cid,
        ).available.units() + net_units(txs, cid),
        ledger.replay(txs)->0.account(cid).held == ledger.account(cid).held,
    decreases txs.len(),
{
    if txs.len() > 0 {
        lemma_conservation(ledger.apply(txs[0]), txs.drop_first(), cid);
    }
}

/// In a new ledger, after deposits and withdrawals that were all accepted
/// and computed exactly, what a client has available is the sum of its
/// deposits less the sum of its withdrawals.
pub proof fn lemma_conservation_from_empty(txs: Seq<TxView>, cid: u16)
    requires
        all_accepted_exactly(Ledger::empty(), txs),
    ensures
        Ledger::empty().replay(txs) is Some,
        Ledger::empty().replay(txs)->0.account(cid).available.units() == net_units(txs, cid),
{
    lemma_conservation(Ledger::empty(), txs, cid);
    assert(Dec::zero().units() == 0) by (nonlinear_arith)
        requires
            Dec::zero().units() == 0 * pow10((MAX_SCALE - 0) as nat),
    ;
}

/// A deposit, then its dispute, then the resolve of that dispute, where the
/// ledger can take the two: both are accepted, the deposit is under dispute
/// in between and not after, the amount has gone from available to held and
/// back as the decimal arithmetic computes it, and nothing else has changed.
pub proof fn lemma_dispute_then_resolve(ledger: Ledger, cid: u16, txid: u32, amount: Dec)
    requires
        ledger.outcome(TxView::deposit(cid, txid, amount)) == Some(Ok::<(), Error>(())),
        ledger.apply(TxView::deposit(cid, txid, amount)).in_range(TxView::dispute(cid, txid)),
        ledger.apply(TxView::deposit(cid, txid, amount)).apply(TxView::dispute(cid, txid)).in_range(
            TxView::resolve(cid, txid),
        ),
    ensures
        ({
            let deposited = ledger.apply(TxView::deposit(cid, txid, amount));
            let disputed = deposited.apply(TxView::dispute(cid, txid));
            let resolved = disputed.apply(TxView::resolve(cid, txid));
            let before = deposited.account(cid);
            let between = disputed.account(cid);
            let after = resolved.account(cid);
            &&& deposited.outcome(TxView::dispute(cid, txid)) == Some(Ok::<(), Error>(()))
            &&& disputed.outcome(TxView::resolve(cid, txid)) == Some(Ok::<(), Error>(()))
            &&& !deposited.history[txid].disputed
            &&& disputed.history[txid].disputed
            &&& !resolved.history[txid].disputed
            &&& before.available.checked_sub(amount) == Some(between.available)
            &&& before.held.checked_add(amount) == Some(between.held)
            &&& between.available.checked_add(amount) == Some(after.available)
            &&& between.held.checked_sub(amount) == Some(after.held)
            &&& !before.locked && !between.locked && !after.locked
            &&& resolved.history == deposited.history
            &&& resolved.accounts.remove(cid) == deposited.accounts.remove(cid)
        }),
{
    let deposited = ledger.apply(TxView::deposit(cid, txid, amount));
    let disputed = deposited.apply(TxView::dispute(cid, txid));
    let resolved = disputed.apply(TxView::resolve(cid, txid));
    assert(resolved.history =~= deposited.history);
    assert(resolved.accounts.remove(cid) =~= deposited.accounts.remove(cid));
}

/// A deposit, then its dispute, then the resolve of that dispute: the
/// account is back at the numbers that it had after the deposit, without
/// drift, the deposit is not under dispute, and nothing else has changed.
///
/// This asks that the four movements of the dispute and the resolve are
/// computed exactly; both are accepted then.
pub proof fn lemma_dispute_resolve_round_trip(ledger: Ledger, cid: u16, txid: u32, amount: Dec)
    requires
        ledger.outcome(TxView::deposit(cid, txid, amount)) == Some(Ok::<(), Error>(())),
        ({
            let deposited = ledger.apply(TxView::deposit(cid, txid, amount)).account(cid);
            &&& deposited.available.subtracts_exactly(amount)
            &&& deposited.held.adds_exactly(amount)
            &&& deposited.available.checked_sub(amount)->0.adds_exactly(amount)
            &&& deposited.held.checked_add(amount)->0.subtracts_exactly(amount)
        }),
    ensures
        ({
            let deposited = ledger.apply(TxView::deposit(cid, txid, amount));
            let disputed = deposited.apply(TxView::dispute(cid, txid));
            let resolved = disputed.apply(TxView::resolve(cid, txid));
            &&& deposited.outcome(TxView::dispute(cid, txid)) == Some(Ok::<(), Error>(()))
            &&& disputed.outcome(TxView::resolve(cid, txid)) == Some(Ok::<(), Error>(()))
            &&& resolved.account(cid).same_as(deposited.account(cid))
            &&& !resolved.history[txid].disputed
            &&& resolved.history == deposited.history
            &&& resolved.accounts.remove(cid) == deposited.accounts.remove(cid)
        }),
{
    lemma_dispute_then_resolve(ledger, cid, txid, amount);
}

/// An accepted chargeback locks the account of its client, ends the
/// dispute, and takes the amount of the deposit out of what is held, as the
/// decimal arithmetic computes it; what is available stays.
pub proof fn lemma_chargeback_locks(ledger: Ledger, cid: u16, txid: u32)
    requires
        ledger.outcome(TxView::charge_back(cid, txid)) == Some(Ok::<(), Error>(())),
    ensures
        ({
            let before = ledger.account(cid);
            let after = ledger.apply(TxView::charge_back(cid, txid)).account(cid);
            &&& ledger.history.contains_key(txid) && ledger.history[txid].disputed
            &&& !ledger.apply(TxView::charge_back(cid, txid)).history[txid].disputed
            &&& !before.locked && after.locked
            &&& after.available == before.available
            &&& Some(after.held) == before.held.checked_sub(ledger.history[txid].amount)
        }),
{
}

/// A deposit, its dispute and the chargeback of that dispute, all accepted,
/// leave the account locked.
pub proof fn lemma_deposit_dispute_chargeback_locks(
    ledger: Ledger,
    cid: u16,
    txid: u32,
    amount: Dec,
)
    requires
        ledger.outcome(TxView::deposit(cid, txid, amount)) == Some(Ok::<(), Error>(())),
        ledger.apply(TxView::deposit(cid, txid, amount)).outcome(TxView::dispute(cid, txid))
            == Some(Ok::<(), Error>(())),
        ledger.apply(TxView::deposit(cid, txid, amount)).apply(TxView::dispute(cid, txid)).outcome(
            TxView::charge_back(cid, txid),
        ) == Some(Ok::<(), Error>(())),
    ensures
        ledger.apply(TxView::deposit(cid, txid, amount)).apply(TxView::dispute(cid, txid)).apply(
            TxView::charge_back(cid, txid),
        ).account(cid).locked,
{
}

/// A locked account rejects every transaction of its client with
/// `AccountIsLocked`, whatever its kind and shape, and the ledger stays as it
/// is.
pub proof fn lemma_locked_rejects(ledger: Ledger, tx: TxView)
    requires
        ledger.account(tx.cid).locked,
    ensures
        ledger.step(tx) == Some((ledger, Err::<(), Error>(Error::AccountIsLocked))),
{
}

/// A locked account stays locked, and as it is, whatever transactions of
/// whatever clients follow.
pub proof fn lemma_locked_for_good(ledger: Ledger, txs: Seq<TxView>, cid: u16)
    requires
        ledger.account(cid).locked,
        ledger.replay(txs) is Some,
    ensures
        ledger.replay(txs)->0.account(cid) == ledger.account(cid),
        ledger.replay(txs)->0.accounts.contains_key(cid),
    decreases txs.len(),
{
    if txs.len() > 0 {
        lemma_locked_for_good(ledger.apply(txs[0]), txs.drop_first(), cid);
    }
}

/// A withdrawal on an account that is not locked is rejected with
/// `InsuffienctFunds` exactly where the decimal arithmetic computes what it
/// would leave available and finds it below zero. The ledger keeps the
/// withdrawal exactly where it accepts it.
pub proof fn lemma_insufficient_funds(ledger: Ledger, cid: u16, txid: u32, amount: Dec)
    requires
        !ledger.account(cid).locked,
    ensures
        ({
            let tx = TxView::withdrawal(cid, txid, amount);
            let left = ledger.account(cid).available.checked_sub(amount);
            &&& ledger.outcome(tx) == Some(Err::<(), Error>(Error::InsuffienctFunds)) <==> (left
                is Some && left->0.is_negative())
            &&& ledger.outcome(tx)->0 is Err ==> ledger.apply(tx) == ledger.opened(cid)
            &&& ledger.outcome(tx)->0 is Ok ==> ledger.apply(tx).account(cid).available == left->0
            &&& ledger.opened(cid).account(cid) == ledger.account(cid)
        }),
{
}

/// A withdrawal of more than is available, on an account that is not locked,
/// is rejected with `InsuffienctFunds`, and the balances stay as they are.
///
/// This asks that the difference is computed exactly.
pub proof fn lemma_overdraft_rejected(ledger: Ledger, cid: u16, txid: u32, amount: Dec)
    requires
        !ledger.account(cid).locked,
        ledger.account(cid).available.subtracts_exactly(amount),
        amount.units() > ledger.account(cid).available.units(),
    ensures
        ledger.step(TxView::withdrawal(cid, txid, amount)) == Some(
            (ledger.opened(cid), Err::<(), Error>(Error::InsuffienctFunds)),
        ),
        ledger.opened(cid).account(cid) == ledger.account(cid),
{
    let difference = ledger.account(cid).available.checked_sub(amount)->0;
    let power = pow10((MAX_SCALE - difference.scale) as nat);
    lemma_pow10_positive((MAX_SCALE - difference.scale) as nat);
    assert(difference.mantissa < 0) by (nonlinear_arith)
        requires
            difference.mantissa * power < 0,
            power >= 1,
    ;
}

} // verus!
