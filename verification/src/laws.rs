//! Laws of the engine, proved once over the transition functions: a locked
//! account is terminal, a rejected event changes nothing, a deposit is undone
//! by a matching withdrawal, and the two ways a dispute can end.

use crate::chargeback::Chargeback;
use crate::deposit::Deposit;
use crate::dispute::Dispute;
use crate::processor::spec_apply;
use crate::processor::spec_chargeback;
use crate::processor::spec_deposit;
use crate::processor::spec_dispute;
use crate::processor::spec_resolve;
use crate::processor::spec_withdrawal;
use crate::resolve::Resolve;
use crate::state::Flag;
use crate::state::Ledger;
use crate::tx::Transaction;
use crate::withdrawal::Withdrawal;
use vstd::prelude::*;

verus! {

/// The client id an event speaks of.
pub open spec fn client_of(t: Transaction) -> u16 {
    match t {
        Transaction::Deposit(d) => d.client,
        Transaction::Withdrawal(w) => w.client,
        Transaction::Dispute(e) => e.client,
        Transaction::Resolve(e) => e.client,
        Transaction::Chargeback(e) => e.client,
    }
}

/// Once an account is locked it is terminal: no later event of any kind
/// changes it, and an event naming that client is rejected outright, leaving
/// the whole ledger untouched.
pub proof fn lemma_locked_account_is_terminal(l: Ledger, t: Transaction, c: u16)
    requires
        l.wf(),
        l.accounts.contains_key(c),
        l.accounts[c].locked,
    ensures
        spec_apply(l, t).0.accounts.contains_key(c),
        spec_apply(l, t).0.accounts[c] == l.accounts[c],
        client_of(t) == c ==> spec_apply(l, t).1 is Err && spec_apply(l, t).0 == l,
{
}

/// Rejection is free of side effects: whenever an event comes back with an
/// error, the ledger after the call is exactly the ledger before it.
pub proof fn lemma_rejected_event_changes_nothing(l: Ledger, t: Transaction)
    requires
        l.wf(),
    ensures
        spec_apply(l, t).1 is Err ==> spec_apply(l, t).0 == l,
{
}

/// A deposit followed at once by a withdrawal of the same amount brings
/// `available` and `total` back to their pre-deposit values and never touches
/// `held` — provided the available balance was not already overdrawn, since
/// the withdrawal must cover its amount.
pub proof fn lemma_deposit_then_withdrawal_restores(
    l: Ledger,
    d: Deposit,
    w: Withdrawal,
    c: u16,
)
    requires
        l.wf(),
        d.client == c,
        w.client == c,
        w.amount == d.amount,
        spec_deposit(l, d).1 is Ok,
        l.accounts.contains_key(c) ==> l.accounts[c].available >= 0,
    ensures
        spec_withdrawal(spec_deposit(l, d).0, w).1 is Ok,
        ({
            let after = spec_withdrawal(spec_deposit(l, d).0, w).0.accounts[c];
            &&& l.accounts.contains_key(c) ==> {
                &&& after.available == l.accounts[c].available
                &&& after.total == l.accounts[c].total
                &&& after.held == l.accounts[c].held
            }
            &&& !l.accounts.contains_key(c) ==> {
                &&& after.available == 0
                &&& after.total == 0
                &&& after.held == 0
            }
        }),
{
}

/// A dispute settled by a resolve restores `available` and `held` to their
/// pre-dispute values, leaves `total` unchanged throughout, and ends the
/// record as Resolved — not back at NotDisputed.
pub proof fn lemma_dispute_then_resolve_restores(l: Ledger, d: Dispute, r: Resolve)
    requires
        l.wf(),
        r.client == d.client,
        r.tx == d.tx,
        spec_dispute(l, d).1 is Ok,
    ensures
        spec_resolve(spec_dispute(l, d).0, r).1 is Ok,
        ({
            let mid = spec_dispute(l, d).0;
            let after = spec_resolve(mid, r).0;
            &&& after.accounts[d.client].available == l.accounts[d.client].available
            &&& after.accounts[d.client].held == l.accounts[d.client].held
            &&& mid.accounts[d.client].total == l.accounts[d.client].total
            &&& after.accounts[d.client].total == l.accounts[d.client].total
            &&& after.accounts[d.client].locked == l.accounts[d.client].locked
            &&& after.deposits[d.tx].flag == Flag::Resolved
        }),
{
}

/// A dispute settled by a chargeback takes the disputed amount out of `held`
/// and `total`, leaves `available` exactly as the dispute left it, locks the
/// account, and ends the record as Chargebacked.
pub proof fn lemma_dispute_then_chargeback_reverses(l: Ledger, d: Dispute, cb: Chargeback)
    requires
        l.wf(),
        cb.client == d.client,
        cb.tx == d.tx,
        spec_dispute(l, d).1 is Ok,
    ensures
        spec_chargeback(spec_dispute(l, d).0, cb).1 is Ok,
        ({
            let mid = spec_dispute(l, d).0;
            let after = spec_chargeback(mid, cb).0;
            let amount = l.deposits[d.tx].amount;
            &&& after.accounts[d.client].held == mid.accounts[d.client].held - amount
            &&& after.accounts[d.client].total == mid.accounts[d.client].total - amount
            &&& after.accounts[d.client].available == mid.accounts[d.client].available
            &&& after.accounts[d.client].locked
            &&& after.deposits[d.tx].flag == Flag::Chargebacked
        }),
{
}

} // verus!
