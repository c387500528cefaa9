//! Steps that wait: for a span of time to pass, or for a condition to turn.

use vstd::prelude::*;

use crate::host::BoxedCoroutine;
use crate::result::{directive, CoResult};

verus! {

/// Stops when `break_` holds and asks to run again when it does not; in
/// neither case are there children.
pub fn break_if(break_: bool) -> (r: CoResult)
    ensures
        r.control_flow == directive(break_),
        r.subroutines@ == Seq::<BoxedCoroutine>::empty(),
{
    if break_ {
        CoResult::break_()
    } else {
        CoResult::continue_()
    }
}

/// What a [`Wait`] holds, in nanoseconds.
pub struct Timing {
    /// The span to wait for.
    pub duration: nat,
    /// How much of it has passed; never more than `duration`.
    pub elapsed: nat,
    /// Whether the span has passed in full.
    pub finished: bool,
}

/// Whether a tick of `delta` nanoseconds is the one that completes the span:
/// it has not been completed before, and with `delta` the time passed
/// reaches it.
pub open spec fn fires(timing: Timing, delta: nat) -> bool {
    !timing.finished && timing.elapsed + delta >= timing.duration
}

/// The timing after a tick of `delta` nanoseconds. Time passed is counted up
/// to the span and no further, and a completed wait stays as it is.
pub open spec fn ticked(timing: Timing, delta: nat) -> Timing {
    if timing.finished {
        timing
    } else if timing.elapsed + delta >= timing.duration {
        Timing { duration: timing.duration, elapsed: timing.duration, finished: true }
    } else {
        Timing { duration: timing.duration, elapsed: timing.elapsed + delta, finished: false }
    }
}

/// The state of a step that waits for a span of time and then stops. It is
/// ticked with the time that has passed since the tick before, and stops on
/// the tick with which the span is complete. It counts as Bevy's `Timer`
/// does in `TimerMode::Once`, in whole nanoseconds.
#[derive(Clone, Copy, Debug)]
pub struct Wait {
    duration: u128,
    elapsed: u128,
    finished: bool,
}

impl View for Wait {
    type V = Timing;

    closed spec fn view(&self) -> Timing {
        Timing {
            duration: self.duration as nat,
            elapsed: self.elapsed as nat,
            finished: self.finished,
        }
    }
}

impl Wait {
    #[verifier::type_invariant]
    spec fn bounded(self) -> bool {
        self.elapsed <= self.duration
    }

    /// A wait for `duration` nanoseconds, of which none has passed.
    pub fn new(duration: u128) -> (r: Self)
        ensures
            r@ == (Timing { duration: duration as nat, elapsed: 0, finished: false }),
    {
        Wait { duration, elapsed: 0, finished: false }
    }

    /// The span to wait for, in nanoseconds.
    pub fn duration(&self) -> (r: u128)
        ensures
            r == self@.duration,
    {
        self.duration
    }

    /// The time that has passed, in nanoseconds.
    pub fn elapsed(&self) -> (r: u128)
        ensures
            r == self@.elapsed,
            r <= self@.duration,
    {
        proof {
            use_type_invariant(self);
        }
        self.elapsed
    }

    /// Whether the span has passed in full.
    pub fn finished(&self) -> (r: bool)
        ensures
            r == self@.finished,
    {
        self.finished
    }

    /// Lets `delta` nanoseconds pass. Stops on the tick that completes the
    /// span and asks to run again on every other.
    pub fn tick(&mut self, delta: u128) -> (r: CoResult)
        ensures
            final(self)@ == ticked(old(self)@, delta as nat),
            r.control_flow == directive(fires(old(self)@, delta as nat)),
            r.subroutines@ == Seq::<BoxedCoroutine>::empty(),
    {
        proof {
            use_type_invariant(&*self);
        }
        if self.finished {
            break_if(false)
        } else if delta >= self.duration - self.elapsed {
            self.elapsed = self.duration;
            self.finished = true;
            break_if(true)
        } else {
            self.elapsed = self.elapsed + delta;
            break_if(false)
        }
    }
}

/// Turns the answer of a condition into a step result: stop once the
/// condition holds.
#[derive(Clone, Copy)]
pub struct UntilMarker;

impl UntilMarker {
    /// Asks the condition once, with `input`, and stops if it holds.
    pub fn adapt<I, F: FnOnce(I) -> bool>(&mut self, input: I, run_system: F) -> (r: CoResult)
        requires
            call_requires(run_system, (input,)),
        ensures
            exists|held: bool|
                call_ensures(run_system, (input,), held) && r.control_flow == directive(held),
            r.subroutines@ == Seq::<BoxedCoroutine>::empty(),
    {
        break_if(run_system(input))
    }
}

/// Turns the answer of a condition into a step result: stop once the
/// condition no longer holds.
#[derive(Clone, Copy)]
pub struct WhileMarker;

impl WhileMarker {
    /// Asks the condition once, with `input`, and stops unless it holds.
    pub fn adapt<I, F: FnOnce(I) -> bool>(&mut self, input: I, run_system: F) -> (r: CoResult)
        requires
            call_requires(run_system, (input,)),
        ensures
            exists|held: bool|
                call_ensures(run_system, (input,), held) && r.control_flow == directive(!held),
            r.subroutines@ == Seq::<BoxedCoroutine>::empty(),
    {
        break_if(!run_system(input))
    }
}

} // verus!
