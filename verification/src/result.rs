//! What a step hands back to the scheduler.

use std::ops::ControlFlow;
use vstd::prelude::*;

use crate::compose::IntoCoroutines;
use crate::host::BoxedCoroutine;

verus! {

/// The result of a coroutine resumption.
pub struct CoResult {
    /// Controls the execution of the coroutine.
    pub control_flow: ControlFlow<()>,
    /// The list of coroutines to be run sequentially before resuming this
    /// coroutine.
    pub subroutines: Vec<BoxedCoroutine>,
}

/// The directive of a step that stops, or of one that asks to run again.
pub open spec fn directive(stop: bool) -> ControlFlow<()> {
    if stop {
        ControlFlow::Break(())
    } else {
        ControlFlow::Continue(())
    }
}

impl CoResult {
    /// Whether the step is finished and leaves its stack.
    pub open spec fn stops(self) -> bool {
        self.control_flow is Break
    }

    /// Rerun the current coroutine next update.
    pub fn continue_() -> (r: Self)
        ensures
            r.control_flow == directive(false),
            r.subroutines@ == Seq::<BoxedCoroutine>::empty(),
    {
        CoResult { control_flow: ControlFlow::Continue(()), subroutines: Vec::new() }
    }

    /// Stops the execution of the current coroutine.
    pub fn break_() -> (r: Self)
        ensures
            r.control_flow == directive(true),
            r.subroutines@ == Seq::<BoxedCoroutine>::empty(),
    {
        CoResult { control_flow: ControlFlow::Break(()), subroutines: Vec::new() }
    }

    /// Adds one or more coroutine systems to run sequentially, after those
    /// already attached, before resuming the current coroutine.
    pub fn add_subroutines<C: IntoCoroutines>(&mut self, subroutines: C)
        ensures
            final(self).control_flow == old(self).control_flow,
            final(self).subroutines@ == old(self).subroutines@ + subroutines.steps(),
    {
        self.add_boxed_subroutines(subroutines.into_coroutines())
    }

    /// Adds coroutine systems to run sequentially, after those already
    /// attached, before resuming the current coroutine.
    pub fn add_boxed_subroutines(&mut self, subroutines: Vec<BoxedCoroutine>)
        ensures
            final(self).control_flow == old(self).control_flow,
            final(self).subroutines@ == old(self).subroutines@ + subroutines@,
    {
        let mut subroutines = subroutines;
        self.subroutines.append(&mut subroutines);
    }

    /// Builds a new CoResult with the same `control_flow` but the given sub
    /// coroutine systems.
    pub fn with_subroutines<C: IntoCoroutines>(&self, subroutines: C) -> (r: Self)
        ensures
            r.control_flow == self.control_flow,
            r.subroutines@ == subroutines.steps(),
    {
        self.with_boxed_subroutines(subroutines.into_coroutines())
    }

    /// Builds a new CoResult with the same `control_flow` but the given sub
    /// coroutine systems.
    pub fn with_boxed_subroutines(&self, subroutines: Vec<BoxedCoroutine>) -> (r: Self)
        ensures
            r.control_flow == self.control_flow,
            r.subroutines == subroutines,
    {
        CoResult { control_flow: self.control_flow, subroutines }
    }

    /// Whether the step asked to stop.
    pub fn is_break(&self) -> (b: bool)
        ensures
            b == self.stops(),
    {
        match self.control_flow {
            ControlFlow::Break(_) => true,
            ControlFlow::Continue(_) => false,
        }
    }
}

} // verus!
