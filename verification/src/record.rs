//! A decoded input row and its conversion to a typed event.
//!
//! A row carries a kind, a client id, a transaction id, and an optional
//! amount. Only five shapes are valid: `deposit` and `withdrawal` with an
//! amount, and `dispute`, `resolve` and `chargeback` without one. Anything
//! else is a malformed row — an input-layer error that never reaches the
//! engine.

use crate::chargeback::Chargeback;
use crate::deposit::Deposit;
use crate::dispute::Dispute;
use crate::resolve::Resolve;
use crate::tx::Transaction;
use crate::withdrawal::Withdrawal;
use vstd::prelude::*;
use vstd::string::StrSliceExecFns;

verus! {

/// A row whose kind and amount do not form one of the five valid shapes.
#[derive(Debug, PartialEq, Eq, Structural, Clone, Copy)]
pub struct InvalidRecord;

/// One input row, decoded into plain fields. The amount is in fraction
/// units of a ten-thousandth and present only when the row carried one.
#[derive(Debug)]
pub struct Record {
    pub record_type: String,
    pub client: u16,
    pub tx: u32,
    pub amount: Option<i64>,
}

/// Which event, if any, a row of these parts decodes to.
pub open spec fn spec_to_tx(ty: Seq<char>, client: u16, tx: u32, amount: Option<i64>) -> Result<
    Transaction,
    InvalidRecord,
> {
    match amount {
        Some(a) => {
            if ty == "deposit"@ {
                Ok(Transaction::Deposit(Deposit { client, tx, amount: a }))
            } else if ty == "withdrawal"@ {
                Ok(Transaction::Withdrawal(Withdrawal { client, tx, amount: a }))
            } else {
                Err(InvalidRecord)
            }
        },
        None => {
            if ty == "dispute"@ {
                Ok(Transaction::Dispute(Dispute { client, tx }))
            } else if ty == "resolve"@ {
                Ok(Transaction::Resolve(Resolve { client, tx }))
            } else if ty == "chargeback"@ {
                Ok(Transaction::Chargeback(Chargeback { client, tx }))
            } else {
                Err(InvalidRecord)
            }
        },
    }
}

/// Character-for-character equality of two string slices.
pub fn str_equal(a: &str, b: &str) -> (r: bool)
    ensures
        r == (a@ == b@),
{
    let na = a.unicode_len();
    let nb = b.unicode_len();
    if na != nb {
        proof {
            if a@ == b@ {
                assert(a@.len() == b@.len());
            }
        }
        return false;
    }
    let mut i: usize = 0;
    while i < na
        invariant
            na as nat == a@.len(),
            nb as nat == b@.len(),
            na == nb,
            0 <= i <= na,
            forall|j: int| 0 <= j < i ==> a@[j] == b@[j],
        decreases na - i,
    {
        if a.get_char(i) != b.get_char(i) {
            proof {
                if a@ == b@ {
                    assert(a@[i as int] == b@[i as int]);
                }
            }
            return false;
        }
        i = i + 1;
    }
    proof {
        assert(a@ =~= b@);
    }
    true
}

impl Record {
    /// Decodes the row into the event it denotes, or reports it malformed.
    pub fn to_tx(&self) -> (r: Result<Transaction, InvalidRecord>)
        ensures
            r == spec_to_tx(self.record_type@, self.client, self.tx, self.amount),
    {
        match self.amount {
            Some(amount) => {
                if str_equal(self.record_type.as_str(), "deposit") {
                    Ok(Transaction::Deposit(Deposit { client: self.client, tx: self.tx, amount }))
                } else if str_equal(self.record_type.as_str(), "withdrawal") {
                    Ok(
                        Transaction::Withdrawal(
                            Withdrawal { client: self.client, tx: self.tx, amount },
                        ),
                    )
                } else {
                    Err(InvalidRecord)
                }
            },
            None => {
                if str_equal(self.record_type.as_str(), "dispute") {
                    Ok(Transaction::Dispute(Dispute { client: self.client, tx: self.tx }))
                } else if str_equal(self.record_type.as_str(), "resolve") {
                    Ok(Transaction::Resolve(Resolve { client: self.client, tx: self.tx }))
                } else if str_equal(self.record_type.as_str(), "chargeback") {
                    Ok(Transaction::Chargeback(Chargeback { client: self.client, tx: self.tx }))
                } else {
                    Err(InvalidRecord)
                }
            },
        }
    }
}

} // verus!
