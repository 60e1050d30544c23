//! The ledger state: the map from client id to account and the map from
//! transaction id to stored deposit, together with its mathematical image and
//! the well-formedness invariant the engine maintains.

use crate::account::Account;
use crate::account::ClientAccount;
use crate::deposit::Deposit;
use std::collections::HashMap;
use vstd::prelude::*;

verus! {

broadcast use vstd::std_specs::hash::group_hash_axioms;

/// Where a stored deposit stands in the dispute lifecycle:
/// NotDisputed, then Disputed, then either Resolved or Chargebacked,
/// the last two terminal.
#[derive(Debug, PartialEq, Eq, Structural, Clone, Copy)]
pub enum Flag {
    NotDisputed,
    Disputed,
    Resolved,
    Chargebacked,
}

/// A successfully applied deposit, kept so that later dispute events can
/// reference it, together with its dispute status.
#[derive(Debug, PartialEq, Eq, Structural, Clone, Copy)]
pub struct FlaggedDeposit {
    pub deposit: Deposit,
    pub flag: Flag,
}

/// The mathematical image of a stored deposit: its immutable payload, with
/// the amount as an unbounded integer, and its dispute status.
pub ghost struct DepositRecord {
    pub client: u16,
    pub tx: u32,
    pub amount: int,
    pub flag: Flag,
}

impl View for FlaggedDeposit {
    type V = DepositRecord;

    open spec fn view(&self) -> DepositRecord {
        DepositRecord {
            client: self.deposit.client,
            tx: self.deposit.tx,
            amount: self.deposit.amount as int,
            flag: self.flag,
        }
    }
}

impl FlaggedDeposit {
    /// Whether the deposit currently sits in an open dispute.
    pub fn is_disputed(&self) -> (r: bool)
        ensures
            r == (self.flag == Flag::Disputed),
    {
        self.flag == Flag::Disputed
    }

    pub fn mark_disputed(&mut self)
        ensures
            final(self)@ == (DepositRecord { flag: Flag::Disputed, ..old(self)@ }),
    {
        self.flag = Flag::Disputed
    }

    pub fn mark_resolved(&mut self)
        ensures
            final(self)@ == (DepositRecord { flag: Flag::Resolved, ..old(self)@ }),
    {
        self.flag = Flag::Resolved
    }

    pub fn mark_chargedback(&mut self)
        ensures
            final(self)@ == (DepositRecord { flag: Flag::Chargebacked, ..old(self)@ }),
    {
        self.flag = Flag::Chargebacked
    }
}

/// The full ledger: every client account and every stored deposit.
#[derive(Debug)]
pub struct AppState {
    pub accounts: HashMap<u16, ClientAccount>,
    pub deposits: HashMap<u32, FlaggedDeposit>,
}

/// The mathematical image of the ledger.
#[verifier::ext_equal]
pub ghost struct Ledger {
    pub accounts: Map<u16, Account>,
    pub deposits: Map<u32, DepositRecord>,
}

impl View for AppState {
    type V = Ledger;

    open spec fn view(&self) -> Ledger {
        Ledger {
            accounts: Map::new(
                |c: u16| self.accounts@.contains_key(c),
                |c: u16| self.accounts@[c]@,
            ),
            deposits: Map::new(
                |t: u32| self.deposits@.contains_key(t),
                |t: u32| self.deposits@[t]@,
            ),
        }
    }
}

impl Ledger {
    /// What the engine maintains at every point in time: every account is
    /// keyed by its own client id and balanced, and every stored deposit is
    /// keyed by its own transaction id, carries a positive amount, and
    /// belongs to a client whose account exists.
    pub open spec fn wf(self) -> bool {
        &&& forall|c: u16| #[trigger]
            self.accounts.contains_key(c) ==> self.accounts[c].client == c
                && self.accounts[c].balanced()
        &&& forall|t: u32| #[trigger]
            self.deposits.contains_key(t) ==> self.deposits[t].tx == t && self.deposits[t].amount
                > 0 && self.accounts.contains_key(self.deposits[t].client)
    }
}

impl AppState {
    /// An empty ledger.
    pub fn new() -> (r: Self)
        ensures
            r@.accounts =~= Map::<u16, Account>::empty(),
            r@.deposits =~= Map::<u32, DepositRecord>::empty(),
            r@.wf(),
    {
        Self { accounts: HashMap::new(), deposits: HashMap::new() }
    }

    /// The stored deposit under `tx`, if any.
    pub fn get_tx(&self, tx: u32) -> (r: Option<&FlaggedDeposit>)
        ensures
            match r {
                Some(f) => self@.deposits.contains_key(tx) && f@ == self@.deposits[tx],
                None => !self@.deposits.contains_key(tx),
            },
    {
        self.deposits.get(&tx)
    }
}

impl Default for AppState {
    fn default() -> (r: Self)
        ensures
            r@.accounts =~= Map::<u16, Account>::empty(),
            r@.deposits =~= Map::<u32, DepositRecord>::empty(),
    {
        Self::new()
    }
}

} // verus!
