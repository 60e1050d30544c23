//! The transaction engine.
//!
//! Each event kind has a pure transition function saying exactly what it does
//! to the mathematical image of the ledger — which checks reject it, with
//! which cause, and how the balances and the dispute status move when it is
//! accepted — and an executable operation proved to implement that
//! transition. Rejected events leave the ledger untouched.

use crate::account::Account;
use crate::account::ClientAccount;
use crate::chargeback::Chargeback;
use crate::deposit::Deposit;
use crate::dispute::Dispute;
use crate::errors::ErrCause;
use crate::errors::TxProcessingError;
use crate::resolve::Resolve;
use crate::state::AppState;
use crate::state::DepositRecord;
use crate::state::Flag;
use crate::state::FlaggedDeposit;
use crate::state::Ledger;
use crate::tx::Transaction;
use crate::withdrawal::Withdrawal;
use vstd::prelude::*;

verus! {

broadcast use vstd::std_specs::hash::group_hash_axioms;

/// What a deposit does to the ledger. A non-positive amount or a locked
/// account rejects it; otherwise the client's account is credited (or created
/// with the amount) and the deposit is stored under its transaction id,
/// not yet disputed.
pub open spec fn spec_deposit(l: Ledger, d: Deposit) -> (Ledger, Result<(), TxProcessingError>) {
    if d.amount <= 0 {
        (l, Err(TxProcessingError::Deposit(ErrCause::AmountLessThanOrEqualToZero)))
    } else if l.accounts.contains_key(d.client) && l.accounts[d.client].locked {
        (l, Err(TxProcessingError::Deposit(ErrCause::ClientAccountLocked)))
    } else {
        let account = if l.accounts.contains_key(d.client) {
            let a = l.accounts[d.client];
            Account { available: a.available + d.amount, total: a.total + d.amount, ..a }
        } else {
            Account {
                client: d.client,
                available: d.amount as int,
                held: 0,
                total: d.amount as int,
                locked: false,
            }
        };
        let record = DepositRecord {
            client: d.client,
            tx: d.tx,
            amount: d.amount as int,
            flag: Flag::NotDisputed,
        };
        (
            Ledger {
                accounts: l.accounts.insert(d.client, account),
                deposits: l.deposits.insert(d.tx, record),
            },
            Ok(()),
        )
    }
}

/// What a withdrawal does to the ledger. It is rejected on a non-positive
/// amount, an unknown client, a locked account, or an available balance below
/// the amount; otherwise the account is debited. No record is stored:
/// withdrawals can never be disputed.
pub open spec fn spec_withdrawal(l: Ledger, w: Withdrawal) -> (
    Ledger,
    Result<(), TxProcessingError>,
) {
    if w.amount <= 0 {
        (l, Err(TxProcessingError::Withdrawal(ErrCause::AmountLessThanOrEqualToZero)))
    } else if !l.accounts.contains_key(w.client) {
        (l, Err(TxProcessingError::Withdrawal(ErrCause::ClientAccountNotFound)))
    } else if l.accounts[w.client].locked {
        (l, Err(TxProcessingError::Withdrawal(ErrCause::ClientAccountLocked)))
    } else if l.accounts[w.client].available < w.amount {
        (l, Err(TxProcessingError::Withdrawal(ErrCause::InsufficientFunds)))
    } else {
        let a = l.accounts[w.client];
        (
            Ledger {
                accounts: l.accounts.insert(
                    w.client,
                    Account { available: a.available - w.amount, total: a.total - w.amount, ..a },
                ),
                ..l
            },
            Ok(()),
        )
    }
}

/// What a dispute does to the ledger. It is rejected when the transaction id
/// is unknown, the claiming client is not the depositor, the deposit has
/// already been disputed (Disputed, Resolved and Chargebacked all refuse a
/// further dispute), or the account is locked; otherwise the deposit's amount
/// moves from available to held and the record becomes Disputed.
pub open spec fn spec_dispute(l: Ledger, e: Dispute) -> (Ledger, Result<(), TxProcessingError>) {
    if !l.deposits.contains_key(e.tx) {
        (l, Err(TxProcessingError::Dispute(ErrCause::ClientTxNotFound)))
    } else {
        let rec = l.deposits[e.tx];
        if rec.client != e.client {
            (l, Err(TxProcessingError::Dispute(ErrCause::ClientDidNotMatch)))
        } else if rec.flag != Flag::NotDisputed {
            (l, Err(TxProcessingError::Dispute(ErrCause::ClientTxAlreadyInDispute)))
        } else if !l.accounts.contains_key(e.client) {
            // a stored deposit's account always exists in a well-formed
            // ledger (see Ledger::wf); nothing is promised of this case
            arbitrary()
        } else if l.accounts[e.client].locked {
            (l, Err(TxProcessingError::Dispute(ErrCause::ClientAccountLocked)))
        } else {
            let a = l.accounts[e.client];
            (
                Ledger {
                    accounts: l.accounts.insert(
                        e.client,
                        Account {
                            available: a.available - rec.amount,
                            held: a.held + rec.amount,
                            ..a
                        },
                    ),
                    deposits: l.deposits.insert(e.tx, DepositRecord { flag: Flag::Disputed, ..rec }),
                },
                Ok(()),
            )
        }
    }
}

/// What a resolve does to the ledger. It is rejected when the transaction id
/// is unknown, the client is not the depositor, the deposit is not currently
/// disputed, or the account is locked; otherwise the held amount is released
/// back to available and the record becomes Resolved, terminally.
pub open spec fn spec_resolve(l: Ledger, e: Resolve) -> (Ledger, Result<(), TxProcessingError>) {
    if !l.deposits.contains_key(e.tx) {
        (l, Err(TxProcessingError::Resolve(ErrCause::ClientTxNotFound)))
    } else {
        let rec = l.deposits[e.tx];
        if rec.client != e.client {
            (l, Err(TxProcessingError::Resolve(ErrCause::ClientDidNotMatch)))
        } else if rec.flag != Flag::Disputed {
            (l, Err(TxProcessingError::Resolve(ErrCause::ClientTxIsNotUnderDispute)))
        } else if !l.accounts.contains_key(e.client) {
            // a stored deposit's account always exists in a well-formed
            // ledger (see Ledger::wf); nothing is promised of this case
            arbitrary()
        } else if l.accounts[e.client].locked {
            (l, Err(TxProcessingError::Resolve(ErrCause::ClientAccountLocked)))
        } else {
            let a = l.accounts[e.client];
            (
                Ledger {
                    accounts: l.accounts.insert(
                        e.client,
                        Account {
                            available: a.available + rec.amount,
                            held: a.held - rec.amount,
                            ..a
                        },
                    ),
                    deposits: l.deposits.insert(e.tx, DepositRecord { flag: Flag::Resolved, ..rec }),
                },
                Ok(()),
            )
        }
    }
}

/// What a chargeback does to the ledger. It is rejected when the transaction
/// id is unknown, the client is not the depositor, the deposit is not
/// currently disputed, or the account is locked; otherwise the held amount
/// leaves the account entirely (available is untouched), the account is
/// locked for good, and the record becomes Chargebacked, terminally.
pub open spec fn spec_chargeback(l: Ledger, e: Chargeback) -> (
    Ledger,
    Result<(), TxProcessingError>,
) {
    if !l.deposits.contains_key(e.tx) {
        (l, Err(TxProcessingError::Chargeback(ErrCause::ClientTxNotFound)))
    } else {
        let rec = l.deposits[e.tx];
        if rec.client != e.client {
            (l, Err(TxProcessingError::Chargeback(ErrCause::ClientDidNotMatch)))
        } else if rec.flag != Flag::Disputed {
            (l, Err(TxProcessingError::Chargeback(ErrCause::ClientTxIsNotUnderDispute)))
        } else if !l.accounts.contains_key(e.client) {
            // a stored deposit's account always exists in a well-formed
            // ledger (see Ledger::wf); nothing is promised of this case
            arbitrary()
        } else if l.accounts[e.client].locked {
            (l, Err(TxProcessingError::Chargeback(ErrCause::ClientAccountLocked)))
        } else {
            let a = l.accounts[e.client];
            (
                Ledger {
                    accounts: l.accounts.insert(
                        e.client,
                        Account {
                            held: a.held - rec.amount,
                            total: a.total - rec.amount,
                            locked: true,
                            ..a
                        },
                    ),
                    deposits: l.deposits.insert(
                        e.tx,
                        DepositRecord { flag: Flag::Chargebacked, ..rec },
                    ),
                },
                Ok(()),
            )
        }
    }
}

/// What one event of any kind does to the ledger.
pub open spec fn spec_apply(l: Ledger, t: Transaction) -> (Ledger, Result<(), TxProcessingError>) {
    match t {
        Transaction::Deposit(d) => spec_deposit(l, d),
        Transaction::Withdrawal(w) => spec_withdrawal(l, w),
        Transaction::Dispute(e) => spec_dispute(l, e),
        Transaction::Resolve(e) => spec_resolve(l, e),
        Transaction::Chargeback(e) => spec_chargeback(l, e),
    }
}

/// The machine-range condition for a deposit: when it would be accepted, the
/// credited balances still fit in an `i64`.
pub open spec fn deposit_in_bounds(l: Ledger, d: Deposit) -> bool {
    (d.amount > 0 && l.accounts.contains_key(d.client) && !l.accounts[d.client].locked) ==> {
        &&& l.accounts[d.client].available + d.amount <= i64::MAX
        &&& l.accounts[d.client].total + d.amount <= i64::MAX
    }
}

/// The machine-range condition for a withdrawal: when it would be accepted,
/// the debited total still fits in an `i64`.
pub open spec fn withdrawal_in_bounds(l: Ledger, w: Withdrawal) -> bool {
    (w.amount > 0 && l.accounts.contains_key(w.client) && !l.accounts[w.client].locked
        && l.accounts[w.client].available >= w.amount) ==> l.accounts[w.client].total - w.amount
        >= i64::MIN
}

/// The guards a dispute passes before it mutates anything.
pub open spec fn dispute_applies(l: Ledger, e: Dispute) -> bool {
    &&& l.deposits.contains_key(e.tx)
    &&& l.deposits[e.tx].client == e.client
    &&& l.deposits[e.tx].flag == Flag::NotDisputed
    &&& l.accounts.contains_key(e.client)
    &&& !l.accounts[e.client].locked
}

/// The machine-range condition for a dispute: when it would be accepted, the
/// moved balances still fit in an `i64`.
pub open spec fn dispute_in_bounds(l: Ledger, e: Dispute) -> bool {
    dispute_applies(l, e) ==> {
        &&& l.accounts[e.client].held + l.deposits[e.tx].amount <= i64::MAX
        &&& l.accounts[e.client].available - l.deposits[e.tx].amount >= i64::MIN
    }
}

/// The guards a resolve passes before it mutates anything.
pub open spec fn resolve_applies(l: Ledger, e: Resolve) -> bool {
    &&& l.deposits.contains_key(e.tx)
    &&& l.deposits[e.tx].client == e.client
    &&& l.deposits[e.tx].flag == Flag::Disputed
    &&& l.accounts.contains_key(e.client)
    &&& !l.accounts[e.client].locked
}

/// The machine-range condition for a resolve: when it would be accepted, the
/// released balances still fit in an `i64`.
pub open spec fn resolve_in_bounds(l: Ledger, e: Resolve) -> bool {
    resolve_applies(l, e) ==> {
        &&& l.accounts[e.client].available + l.deposits[e.tx].amount <= i64::MAX
        &&& l.accounts[e.client].held - l.deposits[e.tx].amount >= i64::MIN
    }
}

/// The guards a chargeback passes before it mutates anything.
pub open spec fn chargeback_applies(l: Ledger, e: Chargeback) -> bool {
    &&& l.deposits.contains_key(e.tx)
    &&& l.deposits[e.tx].client == e.client
    &&& l.deposits[e.tx].flag == Flag::Disputed
    &&& l.accounts.contains_key(e.client)
    &&& !l.accounts[e.client].locked
}

/// The machine-range condition for a chargeback: when it would be accepted,
/// the reversed balances still fit in an `i64`.
pub open spec fn chargeback_in_bounds(l: Ledger, e: Chargeback) -> bool {
    chargeback_applies(l, e) ==> {
        &&& l.accounts[e.client].held - l.deposits[e.tx].amount >= i64::MIN
        &&& l.accounts[e.client].total - l.deposits[e.tx].amount >= i64::MIN
    }
}

/// What a caller owes before handing an event to the engine: a fresh
/// transaction id for a deposit (ids are globally unique; a duplicate is
/// refused before the engine is called), and balances that stay within the
/// machine range.
pub open spec fn admissible(l: Ledger, t: Transaction) -> bool {
    match t {
        Transaction::Deposit(d) => !l.deposits.contains_key(d.tx) && deposit_in_bounds(l, d),
        Transaction::Withdrawal(w) => withdrawal_in_bounds(l, w),
        Transaction::Dispute(e) => dispute_in_bounds(l, e),
        Transaction::Resolve(e) => resolve_in_bounds(l, e),
        Transaction::Chargeback(e) => chargeback_in_bounds(l, e),
    }
}

/// The engine. It holds no state of its own; every operation borrows the
/// ledger for the duration of one event.
pub struct TxProcessorImpl;

impl TxProcessorImpl {
    pub fn new() -> (r: Self)
        ensures
            r == (TxProcessorImpl {  }),
    {
        Self {  }
    }
}

impl Default for TxProcessorImpl {
    fn default() -> (r: Self)
        ensures
            r == (TxProcessorImpl {  }),
    {
        Self::new()
    }
}

impl TxProcessorImpl {
    /// Applies a deposit, as `spec_deposit` says.
    pub fn process_deposit(&self, state: &mut AppState, deposit: &Deposit) -> (r: Result<
        (),
        TxProcessingError,
    >)
        requires
            !old(state)@.deposits.contains_key(deposit.tx),
            deposit_in_bounds(old(state)@, *deposit),
        ensures
            final(state)@ == spec_deposit(old(state)@, *deposit).0,
            r == spec_deposit(old(state)@, *deposit).1,
    {
        if deposit.amount <= 0 {
            return Err(TxProcessingError::Deposit(ErrCause::AmountLessThanOrEqualToZero));
        }
        let existing: Option<ClientAccount> = match state.accounts.get(&deposit.client) {
            Some(a) => Some(*a),
            None => None,
        };
        let account = match existing {
            Some(a) => {
                if a.locked {
                    return Err(TxProcessingError::Deposit(ErrCause::ClientAccountLocked));
                }
                let mut updated = a;
                updated.deposit(deposit.amount);
                updated
            },
            None => ClientAccount {
                client: deposit.client,
                available: deposit.amount,
                held: 0,
                total: deposit.amount,
                locked: false,
            },
        };
        state.accounts.insert(deposit.client, account);
        state.deposits.insert(
            deposit.tx,
            FlaggedDeposit { deposit: *deposit, flag: Flag::NotDisputed },
        );
        proof {
            assert(state@ =~= spec_deposit(old(state)@, *deposit).0);
        }
        Ok(())
    }

    /// Applies a withdrawal, as `spec_withdrawal` says.
    pub fn process_withdrawal(&self, state: &mut AppState, withdrawal: &Withdrawal) -> (r: Result<
        (),
        TxProcessingError,
    >)
        requires
            withdrawal_in_bounds(old(state)@, *withdrawal),
        ensures
            final(state)@ == spec_withdrawal(old(state)@, *withdrawal).0,
            r == spec_withdrawal(old(state)@, *withdrawal).1,
    {
        if withdrawal.amount <= 0 {
            return Err(TxProcessingError::Withdrawal(ErrCause::AmountLessThanOrEqualToZero));
        }
        let existing: Option<ClientAccount> = match state.accounts.get(&withdrawal.client) {
            Some(a) => Some(*a),
            None => None,
        };
        match existing {
            None => Err(TxProcessingError::Withdrawal(ErrCause::ClientAccountNotFound)),
            Some(a) => {
                if a.locked {
                    return Err(TxProcessingError::Withdrawal(ErrCause::ClientAccountLocked));
                }
                if a.available < withdrawal.amount {
                    return Err(TxProcessingError::Withdrawal(ErrCause::InsufficientFunds));
                }
                let mut updated = a;
                updated.withdraw(withdrawal.amount);
                state.accounts.insert(withdrawal.client, updated);
                proof {
                    assert(state@ =~= spec_withdrawal(old(state)@, *withdrawal).0);
                }
                Ok(())
            },
        }
    }

    /// Applies a dispute, as `spec_dispute` says.
    pub fn process_dispute(&self, state: &mut AppState, dispute: &Dispute) -> (r: Result<
        (),
        TxProcessingError,
    >)
        requires
            old(state)@.wf(),
            dispute_in_bounds(old(state)@, *dispute),
        ensures
            final(state)@ == spec_dispute(old(state)@, *dispute).0,
            r == spec_dispute(old(state)@, *dispute).1,
    {
        let flagged: Option<FlaggedDeposit> = match state.deposits.get(&dispute.tx) {
            Some(f) => Some(*f),
            None => None,
        };
        let mut flagged_deposit = match flagged {
            None => return Err(TxProcessingError::Dispute(ErrCause::ClientTxNotFound)),
            Some(fd) => fd,
        };
        if flagged_deposit.deposit.client != dispute.client {
            return Err(TxProcessingError::Dispute(ErrCause::ClientDidNotMatch));
        }
        if flagged_deposit.flag != Flag::NotDisputed {
            return Err(TxProcessingError::Dispute(ErrCause::ClientTxAlreadyInDispute));
        }
        let existing: Option<ClientAccount> = match state.accounts.get(&dispute.client) {
            Some(a) => Some(*a),
            None => None,
        };
        match existing {
            None => {
                // a stored deposit's account always exists in a well-formed
                // ledger, so this arm is provably dead; reaching it from
                // outside the contract aborts loudly
                proof {
                    assert(false);
                }
                vstd::pervasive::unreached()
            },
            Some(a) => {
                if a.locked {
                    return Err(TxProcessingError::Dispute(ErrCause::ClientAccountLocked));
                }
                let amount = flagged_deposit.deposit.amount;
                let mut account = a;
                account.held = account.held + amount;
                account.available = account.available - amount;
                state.accounts.insert(dispute.client, account);
                flagged_deposit.mark_disputed();
                state.deposits.insert(dispute.tx, flagged_deposit);
                proof {
                    assert(state@ =~= spec_dispute(old(state)@, *dispute).0);
                }
                Ok(())
            },
        }
    }

    /// Applies a resolve, as `spec_resolve` says.
    pub fn process_resolve(&self, state: &mut AppState, resolve: &Resolve) -> (r: Result<
        (),
        TxProcessingError,
    >)
        requires
            old(state)@.wf(),
            resolve_in_bounds(old(state)@, *resolve),
        ensures
            final(state)@ == spec_resolve(old(state)@, *resolve).0,
            r == spec_resolve(old(state)@, *resolve).1,
    {
        let flagged: Option<FlaggedDeposit> = match state.deposits.get(&resolve.tx) {
            Some(f) => Some(*f),
            None => None,
        };
        let mut flagged_deposit = match flagged {
            None => return Err(TxProcessingError::Resolve(ErrCause::ClientTxNotFound)),
            Some(fd) => fd,
        };
        if flagged_deposit.deposit.client != resolve.client {
            return Err(TxProcessingError::Resolve(ErrCause::ClientDidNotMatch));
        }
        if !flagged_deposit.is_disputed() {
            return Err(TxProcessingError::Resolve(ErrCause::ClientTxIsNotUnderDispute));
        }
        let existing: Option<ClientAccount> = match state.accounts.get(&resolve.client) {
            Some(a) => Some(*a),
            None => None,
        };
        match existing {
            None => {
                // a stored deposit's account always exists in a well-formed
                // ledger, so this arm is provably dead; reaching it from
                // outside the contract aborts loudly
                proof {
                    assert(false);
                }
                vstd::pervasive::unreached()
            },
            Some(a) => {
                if a.locked {
                    return Err(TxProcessingError::Resolve(ErrCause::ClientAccountLocked));
                }
                let amount = flagged_deposit.deposit.amount;
                let mut account = a;
                account.held = account.held - amount;
                account.available = account.available + amount;
                state.accounts.insert(resolve.client, account);
                flagged_deposit.mark_resolved();
                state.deposits.insert(resolve.tx, flagged_deposit);
                proof {
                    assert(state@ =~= spec_resolve(old(state)@, *resolve).0);
                }
                Ok(())
            },
        }
    }

    /// Applies a chargeback, as `spec_chargeback` says.
    pub fn process_chargeback(&self, state: &mut AppState, chargeback: &Chargeback) -> (r: Result<
        (),
        TxProcessingError,
    >)
        requires
            old(state)@.wf(),
            chargeback_in_bounds(old(state)@, *chargeback),
        ensures
            final(state)@ == spec_chargeback(old(state)@, *chargeback).0,
            r == spec_chargeback(old(state)@, *chargeback).1,
    {
        let flagged: Option<FlaggedDeposit> = match state.deposits.get(&chargeback.tx) {
            Some(f) => Some(*f),
            None => None,
        };
        let mut flagged_deposit = match flagged {
            None => return Err(TxProcessingError::Chargeback(ErrCause::ClientTxNotFound)),
            Some(fd) => fd,
        };
        if flagged_deposit.deposit.client != chargeback.client {
            return Err(TxProcessingError::Chargeback(ErrCause::ClientDidNotMatch));
        }
        if !flagged_deposit.is_disputed() {
            return Err(TxProcessingError::Chargeback(ErrCause::ClientTxIsNotUnderDispute));
        }
        let existing: Option<ClientAccount> = match state.accounts.get(&chargeback.client) {
            Some(a) => Some(*a),
            None => None,
        };
        match existing {
            None => {
                // a stored deposit's account always exists in a well-formed
                // ledger, so this arm is provably dead; reaching it from
                // outside the contract aborts loudly
                proof {
                    assert(false);
                }
                vstd::pervasive::unreached()
            },
            Some(a) => {
                if a.locked {
                    return Err(TxProcessingError::Chargeback(ErrCause::ClientAccountLocked));
                }
                let amount = flagged_deposit.deposit.amount;
                let mut account = a;
                account.held = account.held - amount;
                account.total = account.total - amount;
                account.locked = true;
                state.accounts.insert(chargeback.client, account);
                flagged_deposit.mark_chargedback();
                state.deposits.insert(chargeback.tx, flagged_deposit);
                proof {
                    assert(state@ =~= spec_chargeback(old(state)@, *chargeback).0);
                }
                Ok(())
            },
        }
    }

    /// Applies one event of any kind, as `spec_apply` says, and keeps the
    /// ledger well formed.
    pub fn process(&self, state: &mut AppState, tx: &Transaction) -> (r: Result<
        (),
        TxProcessingError,
    >)
        requires
            old(state)@.wf(),
            admissible(old(state)@, *tx),
        ensures
            final(state)@ == spec_apply(old(state)@, *tx).0,
            r == spec_apply(old(state)@, *tx).1,
            final(state)@.wf(),
    {
        proof {
            lemma_apply_preserves_wf(old(state)@, *tx);
        }
        match tx {
            Transaction::Deposit(d) => self.process_deposit(state, d),
            Transaction::Withdrawal(w) => self.process_withdrawal(state, w),
            Transaction::Dispute(e) => self.process_dispute(state, e),
            Transaction::Resolve(e) => self.process_resolve(state, e),
            Transaction::Chargeback(e) => self.process_chargeback(state, e),
        }
    }
}

/// Applying any event to a well-formed ledger leaves it well formed: every
/// account still belongs to its key and satisfies `total == available +
/// held`, and every stored deposit still points at an existing account and a
/// positive amount.
pub proof fn lemma_apply_preserves_wf(l: Ledger, t: Transaction)
    requires
        l.wf(),
    ensures
        spec_apply(l, t).0.wf(),
{
    match t {
        Transaction::Deposit(d) => {
        },
        Transaction::Withdrawal(w) => {
        },
        Transaction::Dispute(e) => {
        },
        Transaction::Resolve(e) => {
        },
        Transaction::Chargeback(e) => {
        },
    }
}

} // verus!
