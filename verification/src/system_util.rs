//! Running a system that needs an input as one that needs none.

use vstd::pervasive::cloned;
use vstd::prelude::*;

verus! {

/// Holds the input that a system is to be run with, each time it runs.
pub struct InputAdapter<I>(I);

impl<I: Clone> InputAdapter<I> {
    /// The input that each run gets a clone of.
    pub closed spec fn input(self) -> I {
        self.0
    }

    /// An adapter that hands out clones of `input`.
    pub fn new(input: I) -> (r: Self)
        ensures
            r.input() == input,
    {
        InputAdapter(input)
    }

    /// Runs the system once, on a clone of the input, and returns what it
    /// returns. The input itself stays in place for the next run.
    pub fn adapt<O, F: FnOnce(I) -> O>(&mut self, _input: (), run_system: F) -> (r: O)
        requires
            forall|input: I| cloned(old(self).input(), input) ==> call_requires(run_system, (input,)),
        ensures
            final(self).input() == old(self).input(),
            exists|input: I|
                cloned(old(self).input(), input) && call_ensures(run_system, (input,), r),
    {
        let input = self.0.clone();
        assert(cloned(self.input(), input));
        run_system(input)
    }
}

} // verus!
