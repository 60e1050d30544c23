//! The closed set of event kinds, as one tagged sum that the engine matches
//! on exhaustively.

use crate::chargeback::Chargeback;
use crate::deposit::Deposit;
use crate::dispute::Dispute;
use crate::resolve::Resolve;
use crate::withdrawal::Withdrawal;
use vstd::prelude::*;

verus! {

/// One decoded ledger event.
#[derive(Debug, PartialEq, Eq, Structural, Clone, Copy)]
pub enum Transaction {
    Deposit(Deposit),
    Withdrawal(Withdrawal),
    Dispute(Dispute),
    Resolve(Resolve),
    Chargeback(Chargeback),
}

} // verus!
