//! Transactions as they come in.

use crate::amount::{view_of, Amount, Dec};
use vstd::prelude::*;
use vstd::string::StrSliceExecFns;

verus! {

/// The kinds of transaction.
#[derive(Debug, PartialEq, Eq, Structural, Clone, Copy)]
pub enum TxKind {
    /// A client pays into the account.
    Deposit,
    /// A client takes out of the account.
    Withdrawal,
    /// A client claims that an earlier deposit was made in error.
    Dispute,
    /// A dispute ends in favour of the deposit: the held funds are released.
    Resolve,
    /// A dispute ends with the deposit reversed: the account is locked.
    ChargeBack,
}

/// Whether `text` is a word but for the case of its letters, where `small`
/// and `capital` spell the word in small and in capital letters.
pub open spec fn spells(text: Seq<char>, small: Seq<char>, capital: Seq<char>) -> bool {
    &&& text.len() == small.len()
    &&& forall|i: int| 0 <= i < text.len() ==> text[i] == small[i] || text[i] == capital[i]
}

/// Whether `text` is a word but for the case of its letters, where `small`
/// and `capital` spell the word in small and in capital letters.
fn reads(text: &str, small: &str, capital: &str) -> (r: bool)
    requires
        small@.len() == capital@.len(),
    ensures
        r == spells(text@, small@, capital@),
{
    let n = text.unicode_len();
    if n != small.unicode_len() {
        return false;
    }
    let mut i: usize = 0;
    while i < n
        invariant
            0 <= i <= n,
            n == text@.len(),
            n == small@.len(),
            n == capital@.len(),
            forall|k: int| 0 <= k < i ==> text@[k] == small@[k] || text@[k] == capital@[k],
        decreases n - i,
    {
        let c = text.get_char(i);
        if c != small.get_char(i) && c != capital.get_char(i) {
            return false;
        }
        i += 1;
    }
    true
}

impl TxKind {
    /// The name of the kind as a record of input gives it, in small letters.
    pub open spec fn small_name(self) -> Seq<char> {
        match self {
            TxKind::Deposit => "deposit"@,
            TxKind::Withdrawal => "withdrawal"@,
            TxKind::Dispute => "dispute"@,
            TxKind::Resolve => "resolve"@,
            TxKind::ChargeBack => "chargeback"@,
        }
    }

    /// The name of the kind in capital letters.
    pub open spec fn capital_name(self) -> Seq<char> {
        match self {
            TxKind::Deposit => "DEPOSIT"@,
            TxKind::Withdrawal => "WITHDRAWAL"@,
            TxKind::Dispute => "DISPUTE"@,
            TxKind::Resolve => "RESOLVE"@,
            TxKind::ChargeBack => "CHARGEBACK"@,
        }
    }

    /// Whether `text` names the kind: whether it is the name of the kind, in
    /// letters of either case.
    pub open spec fn named_by(self, text: Seq<char>) -> bool {
        spells(text, self.small_name(), self.capital_name())
    }

    /// The name of the kind as a record of input gives it, in small letters.
    pub fn name(self) -> (name: &'static str)
        ensures
            name@ == self.small_name(),
    {
        match self {
            TxKind::Deposit => "deposit",
            TxKind::Withdrawal => "withdrawal",
            TxKind::Dispute => "dispute",
            TxKind::Resolve => "resolve",
            TxKind::ChargeBack => "chargeback",
        }
    }

    /// The kind that `text` names, in letters of either case, or `None` where
    /// it names none.
    pub fn from_name(text: &str) -> (kind: Option<TxKind>)
        ensures
            match kind {
                Some(k) => k.named_by(text@),
                None => forall|k: TxKind| !k.named_by(text@),
            },
    {
        proof {
            lemma_names_are_as_long_in_either_case();
        }
        if reads(text, "deposit", "DEPOSIT") {
            Some(TxKind::Deposit)
        } else if reads(text, "withdrawal", "WITHDRAWAL") {
            Some(TxKind::Withdrawal)
        } else if reads(text, "dispute", "DISPUTE") {
            Some(TxKind::Dispute)
        } else if reads(text, "resolve", "RESOLVE") {
            Some(TxKind::Resolve)
        } else if reads(text, "chargeback", "CHARGEBACK") {
            Some(TxKind::ChargeBack)
        } else {
            assert forall|k: TxKind| !k.named_by(text@) by {
                match k {
                    TxKind::Deposit => {},
                    TxKind::Withdrawal => {},
                    TxKind::Dispute => {},
                    TxKind::Resolve => {},
                    TxKind::ChargeBack => {},
                }
            }
            None
        }
    }
}

/// The name of each kind is as long in capital letters as in small ones.
proof fn lemma_names_are_as_long_in_either_case()
    ensures
        forall|k: TxKind| (#[trigger] k.small_name()).len() == k.capital_name().len(),
        "deposit"@.len() == "DEPOSIT"@.len(),
        "withdrawal"@.len() == "WITHDRAWAL"@.len(),
        "dispute"@.len() == "DISPUTE"@.len(),
        "resolve"@.len() == "RESOLVE"@.len(),
        "chargeback"@.len() == "CHARGEBACK"@.len(),
{
    reveal_strlit("deposit");
    reveal_strlit("DEPOSIT");
    reveal_strlit("withdrawal");
    reveal_strlit("WITHDRAWAL");
    reveal_strlit("dispute");
    reveal_strlit("DISPUTE");
    reveal_strlit("resolve");
    reveal_strlit("RESOLVE");
    reveal_strlit("chargeback");
    reveal_strlit("CHARGEBACK");
}

/// A text names one kind at most.
pub proof fn lemma_one_kind_per_name(text: Seq<char>, a: TxKind, b: TxKind)
    requires
        a.named_by(text),
        b.named_by(text),
    ensures
        a == b,
{
    reveal_strlit("deposit");
    reveal_strlit("DEPOSIT");
    reveal_strlit("withdrawal");
    reveal_strlit("WITHDRAWAL");
    reveal_strlit("dispute");
    reveal_strlit("DISPUTE");
    reveal_strlit("resolve");
    reveal_strlit("RESOLVE");
    reveal_strlit("chargeback");
    reveal_strlit("CHARGEBACK");
    if a != b {
        assert(text[0] == a.small_name()[0] || text[0] == a.capital_name()[0]);
        assert(text[1] == a.small_name()[1] || text[1] == a.capital_name()[1]);
    }
}

/// A transaction as the contracts see it.
pub struct TxView {
    pub kind: TxKind,
    pub cid: u16,
    pub txid: u32,
    pub amount: Option<Dec>,
}

impl TxView {
    /// A deposit of `amount` by the client `cid` under the id `txid`.
    pub open spec fn deposit(cid: u16, txid: u32, amount: Dec) -> TxView {
        TxView { kind: TxKind::Deposit, cid, txid, amount: Some(amount) }
    }

    /// A withdrawal of `amount` by the client `cid` under the id `txid`.
    pub open spec fn withdrawal(cid: u16, txid: u32, amount: Dec) -> TxView {
        TxView { kind: TxKind::Withdrawal, cid, txid, amount: Some(amount) }
    }

    /// A dispute by the client `cid` of the transaction `txid`.
    pub open spec fn dispute(cid: u16, txid: u32) -> TxView {
        TxView { kind: TxKind::Dispute, cid, txid, amount: None }
    }

    /// A resolve by the client `cid` of the dispute of the transaction `txid`.
    pub open spec fn resolve(cid: u16, txid: u32) -> TxView {
        TxView { kind: TxKind::Resolve, cid, txid, amount: None }
    }

    /// A chargeback by the client `cid` of the disputed transaction `txid`.
    pub open spec fn charge_back(cid: u16, txid: u32) -> TxView {
        TxView { kind: TxKind::ChargeBack, cid, txid, amount: None }
    }
}

/// An incoming transaction: its kind, the client, the transaction id, and an
/// amount where there is one.
///
/// A deposit or a withdrawal brings its own id and an amount. A dispute, a
/// resolve or a chargeback brings no amount and names the id of the deposit it
/// is about. Any decimal is taken as the amount of a deposit or a withdrawal,
/// also zero and negative ones: the ledger does not ask for a positive amount.
#[derive(Debug, Clone, Copy)]
pub struct Tx {
    /// The kind of this transaction.
    pub kind: TxKind,
    /// The client.
    pub cid: u16,
    /// The id that a deposit or withdrawal brings, or that a dispute, resolve
    /// or chargeback names.
    pub txid: u32,
    /// The amount, where the transaction has one.
    pub amount: Option<Amount>,
}

impl View for Tx {
    type V = TxView;

    open spec fn view(&self) -> TxView {
        TxView { kind: self.kind, cid: self.cid, txid: self.txid, amount: view_of(self.amount) }
    }
}

impl Tx {
    /// A transaction of any shape, as a row of input gives it. The ledger
    /// rejects the shapes that no other constructor makes.
    pub fn new(kind: TxKind, cid: u16, txid: u32, amount: Option<Amount>) -> (tx: Tx)
        ensures
            tx@ == (TxView { kind, cid, txid, amount: view_of(amount) }),
    {
        Tx { kind, cid, txid, amount }
    }

    /// A deposit of `amount` by the client `cid`, under the new id `txid`.
    pub fn deposit(cid: u16, txid: u32, amount: Amount) -> (tx: Tx)
        ensures
            tx@ == TxView::deposit(cid, txid, amount@),
    {
        Tx { kind: TxKind::Deposit, cid, txid, amount: Some(amount) }
    }

    /// A withdrawal of `amount` by the client `cid`, under the new id `txid`.
    pub fn withdrawal(cid: u16, txid: u32, amount: Amount) -> (tx: Tx)
        ensures
            tx@ == TxView::withdrawal(cid, txid, amount@),
    {
        Tx { kind: TxKind::Withdrawal, cid, txid, amount: Some(amount) }
    }

    /// A dispute by the client `cid` of the deposit stored under `txid`. The
    /// amount is that of the deposit.
    pub fn dispute(cid: u16, txid: u32) -> (tx: Tx)
        ensures
            tx@ == TxView::dispute(cid, txid),
    {
        Tx { kind: TxKind::Dispute, cid, txid, amount: None }
    }

    /// A resolve by the client `cid` of the dispute of the deposit stored
    /// under `txid`. The amount is that of the deposit.
    pub fn resolve(cid: u16, txid: u32) -> (tx: Tx)
        ensures
            tx@ == TxView::resolve(cid, txid),
    {
        Tx { kind: TxKind::Resolve, cid, txid, amount: None }
    }

    /// A chargeback by the client `cid` of the disputed deposit stored under
    /// `txid`. The amount is that of the deposit.
    pub fn charge_back(cid: u16, txid: u32) -> (tx: Tx)
        ensures
            tx@ == TxView::charge_back(cid, txid),
    {
        Tx { kind: TxKind::ChargeBack, cid, txid, amount: None }
    }
}

} // verus!
