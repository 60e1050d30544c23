//! The withdrawal event: debits a client's account. Withdrawals leave no
//! record behind; they can never be disputed.

use crate::errors::TxProcessingError;
use crate::processor::spec_withdrawal;
use crate::processor::withdrawal_in_bounds;
use crate::processor::TxProcessorImpl;
use crate::state::AppState;
use vstd::prelude::*;

verus! {

/// A request to debit `amount` fraction units from `client`.
#[derive(Debug, PartialEq, Eq, Structural, Clone, Copy)]
pub struct Withdrawal {
    pub client: u16,
    pub tx: u32,
    pub amount: i64,
}

impl Withdrawal {
    /// Hands this event to the engine.
    pub fn process(&self, state: &mut AppState, processor: &TxProcessorImpl) -> (r: Result<
        (),
        TxProcessingError,
    >)
        requires
            withdrawal_in_bounds(old(state)@, *self),
        ensures
            final(state)@ == spec_withdrawal(old(state)@, *self).0,
            r == spec_withdrawal(old(state)@, *self).1,
    {
        processor.process_withdrawal(state, self)
    }
}

} // verus!
