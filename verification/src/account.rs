//! A client's account: balance arithmetic and the export projection.
//!
//! All balances are fixed-precision decimals counted in fraction units of a
//! ten-thousandth, so `total == available + held` is exact integer arithmetic.

use crate::money::fixed_text;
use crate::money::format_fixed;
use vstd::prelude::*;

verus! {

/// The export projection of an account, with every monetary field rendered
/// to exactly four decimal digits.
#[derive(Debug, PartialEq, Eq, Clone)]
pub struct ClientAccountCsvWritableRecord {
    pub client: u16,
    pub available: String,
    pub held: String,
    pub total: String,
    pub locked: bool,
}

/// One client's balances. `available` may be withdrawn or placed under
/// dispute; `held` is frozen pending dispute resolution; once `locked` is set
/// the account accepts no further events.
#[derive(Debug, PartialEq, Eq, Structural, Clone, Copy)]
pub struct ClientAccount {
    pub client: u16,
    pub available: i64,
    pub held: i64,
    pub total: i64,
    pub locked: bool,
}

/// The mathematical image of an account: the same fields, with the balances
/// as unbounded integers.
pub ghost struct Account {
    pub client: u16,
    pub available: int,
    pub held: int,
    pub total: int,
    pub locked: bool,
}

impl Account {
    /// Funds never leak between the fields: the total is exactly what is
    /// available plus what is held under dispute.
    pub open spec fn balanced(self) -> bool {
        self.total == self.available + self.held
    }
}

impl View for ClientAccount {
    type V = Account;

    open spec fn view(&self) -> Account {
        Account {
            client: self.client,
            available: self.available as int,
            held: self.held as int,
            total: self.total as int,
            locked: self.locked,
        }
    }
}

impl ClientAccount {
    /// Credit the account. The caller guarantees that the amount is positive
    /// and keeps the balances within the machine range.
    pub fn deposit(&mut self, amount: i64)
        requires
            amount > 0,
            old(self).available + amount <= i64::MAX,
            old(self).total + amount <= i64::MAX,
        ensures
            final(self)@ == (Account {
                available: old(self)@.available + amount,
                total: old(self)@.total + amount,
                ..old(self)@
            }),
    {
        self.available = self.available + amount;
        self.total = self.total + amount;
    }

    /// Debit the account. The caller guarantees that the amount is positive
    /// and covered by the available balance, and that the total stays within
    /// the machine range.
    pub fn withdraw(&mut self, amount: i64)
        requires
            amount > 0,
            old(self).available >= amount,
            old(self).total - amount >= i64::MIN,
        ensures
            final(self)@ == (Account {
                available: old(self)@.available - amount,
                total: old(self)@.total - amount,
                ..old(self)@
            }),
    {
        self.available = self.available - amount;
        self.total = self.total - amount;
    }

    /// The display projection: four decimal digits for every monetary field.
    pub fn writable_record(&self) -> (r: ClientAccountCsvWritableRecord)
        ensures
            r.client == self.client,
            r.available@ == fixed_text(self.available as int),
            r.held@ == fixed_text(self.held as int),
            r.total@ == fixed_text(self.total as int),
            r.locked == self.locked,
    {
        ClientAccountCsvWritableRecord {
            client: self.client,
            available: format_fixed(self.available),
            held: format_fixed(self.held),
            total: format_fixed(self.total),
            locked: self.locked,
        }
    }
}

} // verus!
