//! The reasons for which the ledger turns a transaction down.

use vstd::prelude::*;

verus! {

/// Why a transaction was rejected. A rejected transaction changes no balance
/// and no stored record.
#[derive(Debug, PartialEq, Eq, Structural, Clone, Copy)]
pub enum Error {
    /// A checked addition or subtraction left the decimal domain.
    MathError,
    /// A withdrawal asked for more than is available.
    InsuffienctFunds,
    /// A deposit or withdrawal reused a transaction id that is already stored.
    TxAlreadyExists,
    /// A dispute, resolve or chargeback named a transaction id that is not stored.
    TxNotFound,
    /// The client of the request is not the client of the stored transaction.
    CidMismatch,
    /// A dispute named a transaction that is already under dispute.
    TxAlreadyDisputed,
    /// A resolve or chargeback named a transaction that is not under dispute.
    TxNotDisputed,
    /// A dispute named a withdrawal; only deposits can be disputed.
    TxMustBeDeposit,
    /// The account was locked by an earlier chargeback.
    AccountIsLocked,
    /// The kind of the transaction and the presence of an amount do not fit.
    InvalidTx,
}

} // verus!
