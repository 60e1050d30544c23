//! The chargeback event: settles an open dispute against the client, pulling
//! the held funds out of the account and locking it for good.

use crate::errors::TxProcessingError;
use crate::processor::chargeback_in_bounds;
use crate::processor::spec_chargeback;
use crate::processor::TxProcessorImpl;
use crate::state::AppState;
use vstd::prelude::*;

verus! {

/// A reversal of the disputed deposit stored under `tx`.
#[derive(Debug, PartialEq, Eq, Structural, Clone, Copy)]
pub struct Chargeback {
    pub client: u16,
    pub tx: u32,
}

impl Chargeback {
    /// Hands this event to the engine.
    pub fn process(&self, state: &mut AppState, processor: &TxProcessorImpl) -> (r: Result<
        (),
        TxProcessingError,
    >)
        requires
            old(state)@.wf(),
            chargeback_in_bounds(old(state)@, *self),
        ensures
            final(state)@ == spec_chargeback(old(state)@, *self).0,
            r == spec_chargeback(old(state)@, *self).1,
    {
        processor.process_chargeback(state, self)
    }
}

} // verus!
