//! Turning one step, or several steps meant to run one after another, into
//! the flat sequence that a coroutine is launched from.

use vstd::prelude::*;

use crate::host::BoxedCoroutine;

verus! {

/// Conversion trait to turn something into a sequence of [`BoxedCoroutine`].
pub trait IntoCoroutines: Sized {
    /// The steps that this value stands for, the one that runs first at the
    /// front.
    spec fn steps(self) -> Seq<BoxedCoroutine>;

    /// Turn this value into a sequence of [`BoxedCoroutine`] and put them, in
    /// their order, behind what the given Vec already holds.
    fn collect_coroutines(self, coroutines: &mut Vec<BoxedCoroutine>)
        ensures
            final(coroutines)@ == old(coroutines)@ + self.steps(),
    ;

    /// Turn this value into a sequence of [`BoxedCoroutine`] and returns it
    /// as a Vec.
    fn into_coroutines(self) -> (coroutines: Vec<BoxedCoroutine>)
        ensures
            coroutines@ == self.steps(),
    {
        let mut coroutines = Vec::new();
        self.collect_coroutines(&mut coroutines);
        coroutines
    }
}

/// A single step stands for itself.
impl IntoCoroutines for BoxedCoroutine {
    open spec fn steps(self) -> Seq<BoxedCoroutine> {
        seq![self]
    }

    fn collect_coroutines(self, coroutines: &mut Vec<BoxedCoroutine>) {
        coroutines.push(self);
    }
}

/// The flat sequence that a list of composable values stands for: the steps
/// of its first item, then those of the second, and so on.
pub open spec fn flattened<S: IntoCoroutines>(items: Seq<S>) -> Seq<BoxedCoroutine>
    decreases items.len(),
{
    if items.len() == 0 {
        Seq::empty()
    } else {
        flattened(items.drop_last()) + items.last().steps()
    }
}

/// A list stands for the steps of its items, first to last.
impl<S: IntoCoroutines> IntoCoroutines for Vec<S> {
    open spec fn steps(self) -> Seq<BoxedCoroutine> {
        flattened(self@)
    }

    fn collect_coroutines(self, coroutines: &mut Vec<BoxedCoroutine>) {
        let ghost items = self@;
        for item in it: self
            invariant
                it.seq() == items,
                coroutines@ == old(coroutines)@ + flattened(items.take(it.index() as int)),
        {
            assert(items.take(it.index() + 1).drop_last() =~= items.take(it.index() as int));
            item.collect_coroutines(coroutines);
        }
        assert(items.take(items.len() as int) =~= items);
    }
}

} // verus!
