//! The failure taxonomy of the engine: an outer kind naming which operation
//! failed, and an inner cause. Every cause is recoverable; the ledger is left
//! untouched whenever one is returned.

use vstd::prelude::*;
use vstd::string::StringExecFns;

verus! {

/// Why a single event was rejected.
#[derive(Debug, PartialEq, Eq, Structural, Clone, Copy)]
pub enum ErrCause {
    AmountLessThanOrEqualToZero,
    ClientAccountLocked,
    ClientAccountNotFound,
    InsufficientFunds,
    ClientTxNotFound,
    ClientTxAlreadyInDispute,
    ClientTxIsNotUnderDispute,
    ClientDidNotMatch,
}

/// A rejected event: which kind of operation failed, and why.
#[derive(Debug, PartialEq, Eq, Structural, Clone, Copy)]
pub enum TxProcessingError {
    Deposit(ErrCause),
    Withdrawal(ErrCause),
    Dispute(ErrCause),
    Resolve(ErrCause),
    Chargeback(ErrCause),
}

/// The text that describes a cause, appended after the operation's name.
pub open spec fn cause_text(cause: ErrCause) -> Seq<char> {
    match cause {
        ErrCause::AmountLessThanOrEqualToZero => ": amount less than or equal to 0"@,
        ErrCause::ClientAccountLocked => ": account locked"@,
        ErrCause::ClientAccountNotFound => ": acount not found"@,
        ErrCause::InsufficientFunds => ": insufficient funds"@,
        ErrCause::ClientTxNotFound => ": transaction not found"@,
        ErrCause::ClientTxAlreadyInDispute => ": transaction is already in dispute"@,
        ErrCause::ClientTxIsNotUnderDispute => ": transaction is not under dispute"@,
        ErrCause::ClientDidNotMatch => {
            ": client in dispute/resolve/chargeback does not match client in deposit"@
        },
    }
}

/// One line of diagnostics for a rejected event.
pub fn msg(tag: &str, cause: &ErrCause) -> (r: String)
    ensures
        r@ == tag@ + cause_text(*cause),
{
    let mut s = String::from_str(tag);
    match cause {
        ErrCause::AmountLessThanOrEqualToZero => s.append(": amount less than or equal to 0"),
        ErrCause::ClientAccountLocked => s.append(": account locked"),
        ErrCause::ClientAccountNotFound => s.append(": acount not found"),
        ErrCause::InsufficientFunds => s.append(": insufficient funds"),
        ErrCause::ClientTxNotFound => s.append(": transaction not found"),
        ErrCause::ClientTxAlreadyInDispute => s.append(": transaction is already in dispute"),
        ErrCause::ClientTxIsNotUnderDispute => s.append(": transaction is not under dispute"),
        ErrCause::ClientDidNotMatch => {
            s.append(": client in dispute/resolve/chargeback does not match client in deposit")
        },
    }
    s
}

/// The message that describes a rejected event.
pub open spec fn error_text(e: TxProcessingError) -> Seq<char> {
    match e {
        TxProcessingError::Deposit(cause) => "Deposit"@ + cause_text(cause),
        TxProcessingError::Withdrawal(cause) => "Withdrawal"@ + cause_text(cause),
        TxProcessingError::Dispute(cause) => "Dispute"@ + cause_text(cause),
        TxProcessingError::Resolve(cause) => "Resolve"@ + cause_text(cause),
        TxProcessingError::Chargeback(cause) => "Chargeback"@ + cause_text(cause),
    }
}

impl TxProcessingError {
    /// The operation's name followed by the cause, for reporting.
    pub fn message(&self) -> (r: String)
        ensures
            r@ == error_text(*self),
    {
        match self {
            TxProcessingError::Deposit(cause) => msg("Deposit", cause),
            TxProcessingError::Withdrawal(cause) => msg("Withdrawal", cause),
            TxProcessingError::Dispute(cause) => msg("Dispute", cause),
            TxProcessingError::Resolve(cause) => msg("Resolve", cause),
            TxProcessingError::Chargeback(cause) => msg("Chargeback", cause),
        }
    }
}

} // verus!
