//! The deposit event: credits a client's account and leaves a deposit record
//! behind, so that the transaction can later be disputed.

use crate::errors::TxProcessingError;
use crate::processor::deposit_in_bounds;
use crate::processor::spec_deposit;
use crate::processor::TxProcessorImpl;
use crate::state::AppState;
use vstd::prelude::*;

verus! {

/// A request to credit `amount` fraction units to `client`, under the
/// globally unique transaction id `tx`.
#[derive(Debug, PartialEq, Eq, Structural, Clone, Copy)]
pub struct Deposit {
    pub client: u16,
    pub tx: u32,
    pub amount: i64,
}

impl Deposit {
    /// Hands this event to the engine.
    pub fn process(&self, state: &mut AppState, processor: &TxProcessorImpl) -> (r: Result<
        (),
        TxProcessingError,
    >)
        requires
            !old(state)@.deposits.contains_key(self.tx),
            deposit_in_bounds(old(state)@, *self),
        ensures
            final(state)@ == spec_deposit(old(state)@, *self).0,
            r == spec_deposit(old(state)@, *self).1,
    {
        processor.process_deposit(state, self)
    }
}

} // verus!
