//! A ledger that replays deposits, withdrawals, disputes, resolves and
//! chargebacks against per-client accounts, with every rule stated as a
//! contract and proved.
//!
//! - `amount`: exact decimal amounts, and `decimal`, the boundary to the
//!   crate that does their arithmetic;
//! - `tx`, `record`, `account`, `error`: the transactions that come in, the
//!   ones that are kept, the accounts, and the reasons for a rejection;
//! - `rules`: what each kind of transaction does, as functions of plain
//!   values;
//! - `ledger`: the state of a ledger and the step of one transaction, as the
//!   contracts see them;
//! - `txs`: the executable ledger;
//! - `batch`: a whole run, from the records of an input to the rows of the
//!   table of accounts;
//! - `laws`: what holds of every ledger.

pub mod account;
pub mod amount;
pub mod batch;
pub mod decimal;
pub mod error;
pub mod laws;
pub mod ledger;
pub mod record;
pub mod rules;
pub mod tx;
pub mod txs;

pub use account::{Account, AccountView};
pub use amount::{Amount, Dec};
pub use error::Error;
pub use ledger::Ledger;
pub use record::{Entry, Record};
pub use tx::{Tx, TxKind, TxView};
pub use txs::Txs;
