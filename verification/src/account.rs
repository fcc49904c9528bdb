//! The state of one client's account.

use crate::amount::{view_of, Amount, Dec};
use vstd::prelude::*;
use vstd::std_specs::cmp::PartialEqSpecImpl;

verus! {

/// An account as the contracts see it.
pub struct AccountView {
    pub available: Dec,
    pub held: Dec,
    pub locked: bool,
}

impl AccountView {
    /// The account of a client that no transaction has named yet: nothing
    /// available, nothing held, not locked.
    pub open spec fn fresh() -> AccountView {
        AccountView { available: Dec::zero(), held: Dec::zero(), locked: false }
    }

    /// The total of the account, `available + held`, as the decimal
    /// arithmetic gives it, or `None` where that sum overflows.
    pub open spec fn total(self) -> Option<Dec> {
        self.available.checked_add(self.held)
    }

    /// Whether two accounts hold the same numbers and the same lock.
    pub open spec fn same_as(self, other: AccountView) -> bool {
        &&& self.available.units() == other.available.units()
        &&& self.held.units() == other.held.units()
        &&& self.locked == other.locked
    }
}

/// The state of one client's account.
#[derive(Debug, Clone, Copy)]
pub struct Account {
    /// The funds that the client can withdraw.
    pub available: Amount,
    /// The funds that are held back while a deposit is under dispute.
    pub held: Amount,
    /// Whether the account is locked. A chargeback locks it, for good.
    pub locked: bool,
}

impl View for Account {
    type V = AccountView;

    open spec fn view(&self) -> AccountView {
        AccountView { available: self.available@, held: self.held@, locked: self.locked }
    }
}

impl Account {
    /// An account with the given balances and lock.
    pub fn new(available: Amount, held: Amount, locked: bool) -> (account: Account)
        ensures
            account@ == (AccountView { available: available@, held: held@, locked }),
    {
        Account { available, held, locked }
    }

    /// The total of the account, `available + held`, or `None` where that sum
    /// overflows.
    pub fn total(&self) -> (total: Option<Amount>)
        ensures
            view_of(total) == self@.total(),
    {
        self.available.checked_add(self.held)
    }
}

impl Default for Account {
    /// The account of a client that no transaction has named yet.
    fn default() -> (account: Account)
        ensures
            account@ == AccountView::fresh(),
    {
        Account { available: Amount::zero(), held: Amount::zero(), locked: false }
    }
}

impl PartialEq for Account {
    /// Two accounts are equal where they hold the same numbers and the same
    /// lock.
    fn eq(&self, other: &Account) -> (r: bool) {
        self.available == other.available && self.held == other.held && self.locked
            == other.locked
    }
}

impl PartialEqSpecImpl for Account {
    open spec fn obeys_eq_spec() -> bool {
        true
    }

    open spec fn eq_spec(&self, other: &Account) -> bool {
        self@.same_as(other@)
    }
}

} // verus!
