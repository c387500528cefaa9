//! The one way in which the scheduler fails: the world does not know, or
//! will not hand out, a step that a stack holds.

use vstd::prelude::*;

use crate::host::{HostError, StepId};

verus! {

/// A stack holds a step that the world refused to run or to remove. The
/// scheduler's bookkeeping and the world's no longer agree.
#[derive(Debug)]
pub struct CoroutineError {
    /// The step on top of the stack that could not be resumed.
    pub step: StepId,
    /// What the world said.
    pub source: HostError,
}

} // verus!
