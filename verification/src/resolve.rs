//! The resolve event: settles an open dispute in the client's favour,
//! releasing the held funds back to the available balance.

use crate::errors::TxProcessingError;
use crate::processor::resolve_in_bounds;
use crate::processor::spec_resolve;
use crate::processor::TxProcessorImpl;
use crate::state::AppState;
use vstd::prelude::*;

verus! {

/// A settlement of the open dispute on the deposit stored under `tx`.
#[derive(Debug, PartialEq, Eq, Structural, Clone, Copy)]
pub struct Resolve {
    pub client: u16,
    pub tx: u32,
}

impl Resolve {
    /// Hands this event to the engine.
    pub fn process(&self, state: &mut AppState, processor: &TxProcessorImpl) -> (r: Result<
        (),
        TxProcessingError,
    >)
        requires
            old(state)@.wf(),
            resolve_in_bounds(old(state)@, *self),
        ensures
            final(state)@ == spec_resolve(old(state)@, *self).0,
            r == spec_resolve(old(state)@, *self).1,
    {
        processor.process_resolve(state, self)
    }
}

} // verus!
