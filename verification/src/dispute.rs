//! The dispute event: freezes the amount of an earlier deposit while the
//! claim is investigated.

use crate::errors::TxProcessingError;
use crate::processor::dispute_in_bounds;
use crate::processor::spec_dispute;
use crate::processor::TxProcessorImpl;
use crate::state::AppState;
use vstd::prelude::*;

verus! {

/// A claim by `client` against the deposit stored under `tx`.
#[derive(Debug, PartialEq, Eq, Structural, Clone, Copy)]
pub struct Dispute {
    pub client: u16,
    pub tx: u32,
}

impl Dispute {
    /// Hands this event to the engine.
    pub fn process(&self, state: &mut AppState, processor: &TxProcessorImpl) -> (r: Result<
        (),
        TxProcessingError,
    >)
        requires
            old(state)@.wf(),
            dispute_in_bounds(old(state)@, *self),
        ensures
            final(state)@ == spec_dispute(old(state)@, *self).0,
            r == spec_dispute(old(state)@, *self).1,
    {
        processor.process_dispute(state, self)
    }
}

} // verus!
