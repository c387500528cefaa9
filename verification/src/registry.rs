//! All the coroutines in progress, and the pass that moves each of them on by
//! one step.

use bevy::ecs::world::World;
use vstd::prelude::*;

use crate::compose::IntoCoroutines;
use crate::error::CoroutineError;
use crate::host::{BoxedCoroutine, Slot};
use crate::laws::law_pass_adds_nothing;
use crate::model::{each_resumed, live, passed, resumed, steps_of};
use crate::stack::{register_steps, reversed, CoroutineStack};

verus! {

/// The coroutines in progress. A stack enters when a [`Coroutine`] is
/// applied and leaves in the pass that finds it empty.
pub struct Coroutines {
    stacks: Vec<CoroutineStack>,
}

impl View for Coroutines {
    type V = Seq<Seq<Slot>>;

    closed spec fn view(&self) -> Seq<Seq<Slot>> {
        self.stacks@.map_values(|stack: CoroutineStack| stack@)
    }
}

impl Default for Coroutines {
    fn default() -> (r: Self)
        ensures
            r@ == Seq::<Seq<Slot>>::empty(),
    {
        Coroutines { stacks: Vec::new() }
    }
}

impl Coroutines {
    /// A registry without coroutines.
    pub fn new() -> (r: Self)
        ensures
            r@ == Seq::<Seq<Slot>>::empty(),
    {
        Coroutines { stacks: Vec::new() }
    }

    /// The number of coroutines in progress.
    pub fn len(&self) -> (n: usize)
        ensures
            n == self@.len(),
    {
        self.stacks.len()
    }

    /// Whether no coroutine is in progress.
    pub fn is_empty(&self) -> (b: bool)
        ensures
            b == (self@.len() == 0),
    {
        self.stacks.len() == 0
    }

    /// The coroutine at place `index`, if there are that many.
    pub fn get(&self, index: usize) -> (stack: Option<&CoroutineStack>)
        ensures
            index < self@.len() ==> stack is Some && stack->Some_0@ == self@[index as int],
            index >= self@.len() ==> stack is None,
    {
        if index < self.stacks.len() {
            Some(&self.stacks[index])
        } else {
            None
        }
    }

    /// Takes out the coroutine that was taken in last, if there is one.
    pub fn pop(&mut self) -> (stack: Option<CoroutineStack>)
        ensures
            old(self)@.len() == 0 ==> stack is None && final(self)@ == old(self)@,
            old(self)@.len() > 0 ==> stack is Some && stack->Some_0@ == old(self)@.last(),
            old(self)@.len() > 0 ==> final(self)@ == old(self)@.drop_last(),
    {
        let stack = self.stacks.pop();
        assert(self@ =~= (if old(self)@.len() == 0 {
            old(self)@
        } else {
            old(self)@.drop_last()
        }));
        stack
    }

    /// Takes in a coroutine, behind those already in progress.
    pub fn push(&mut self, stack: CoroutineStack)
        ensures
            final(self)@ == old(self)@.push(stack@),
    {
        self.stacks.push(stack);
        assert(self@ =~= old(self)@.push(stack@));
    }

    /// Takes what resuming the coroutine at place `index` gave, and says
    /// where the pass goes on. A refusal is handed on as it is and nothing
    /// changes. After a resumption the coroutine is dropped if it is empty,
    /// so that the next one has moved to `index`; if it is not, it stays and
    /// the pass goes on at `index + 1`.
    pub fn after_resume(&mut self, index: usize, resumed: Result<(), CoroutineError>) -> (r: Result<
        usize,
        CoroutineError,
    >)
        requires
            index < old(self)@.len(),
        ensures
            resumed is Err ==> r == Err::<usize, CoroutineError>(resumed->Err_0),
            resumed is Err ==> final(self)@ == old(self)@,
            resumed is Ok ==> r is Ok,
            resumed is Ok && old(self)@[index as int].len() == 0 ==> r->Ok_0 == index,
            resumed is Ok && old(self)@[index as int].len() == 0 ==> final(self)@ == old(
                self,
            )@.remove(index as int),
            resumed is Ok && old(self)@[index as int].len() > 0 ==> r->Ok_0 == index + 1,
            resumed is Ok && old(self)@[index as int].len() > 0 ==> final(self)@ == old(self)@,
    {
        match resumed {
            Err(error) => Err(error),
            Ok(()) => {
                if self.stacks[index].is_empty() {
                    self.stacks.remove(index);
                    assert(self@ =~= old(self)@.remove(index as int));
                    Ok(index)
                } else {
                    let n = self.stacks.len();
                    assert(index < n);
                    Ok(index + 1)
                }
            },
        }
    }

    /// Moves all the coroutines of `other` behind those of `self`, in their
    /// order, and leaves `other` empty.
    pub fn append(&mut self, other: &mut Coroutines)
        ensures
            final(self)@ == old(self)@ + old(other)@,
            final(other)@ == Seq::<Seq<Slot>>::empty(),
    {
        self.stacks.append(&mut other.stacks);
        assert(self@ =~= old(self)@ + old(other)@);
        assert(other@ =~= Seq::<Seq<Slot>>::empty());
    }
}

/// A request to launch a coroutine: the steps to run in sequence, none of
/// them registered yet.
pub struct Coroutine(Vec<BoxedCoroutine>);

impl View for Coroutine {
    type V = Seq<BoxedCoroutine>;

    closed spec fn view(&self) -> Seq<BoxedCoroutine> {
        self.0@
    }
}

impl Coroutine {
    /// Makes a `Coroutine` that launches the given coroutine systems in
    /// sequence.
    pub fn new<C: IntoCoroutines>(coroutines: C) -> (r: Self)
        ensures
            r@ == coroutines.steps(),
    {
        Coroutine(coroutines.into_coroutines())
    }

    /// Registers the steps with the world, the last of them first, and
    /// stacks their slots in that order: the slot of the last step lies at
    /// the bottom and that of the first step on top.
    pub fn register(self, world: &mut World) -> (stack: CoroutineStack)
        ensures
            steps_of(stack@) == self@.reverse(),
    {
        CoroutineStack::new(register_steps(world, reversed(self.0)))
    }

    /// Launches the coroutine: registers its steps as
    /// [`Coroutine::register`] does and hands the new stack to `coroutines`,
    /// which leaves the stacks it already holds as they are.
    pub fn apply(self, coroutines: &mut Coroutines, world: &mut World)
        ensures
            final(coroutines)@.len() == old(coroutines)@.len() + 1,
            final(coroutines)@.drop_last() == old(coroutines)@,
            steps_of(final(coroutines)@.last()) == self@.reverse(),
    {
        let stack = self.register(world);
        coroutines.push(stack);
    }
}

/// What a pass does with one more stack, once that stack has been resumed
/// and, if empty, dropped.
proof fn lemma_pass_goes_on(
    before: Seq<Seq<Slot>>,
    each: Seq<Seq<Slot>>,
    next: Seq<Slot>,
)
    requires
        each.len() < before.len(),
        each_resumed(before.take(each.len() as int), each),
        resumed(before[each.len() as int], next),
    ensures
        each_resumed(before.take(each.len() as int + 1), each.push(next)),
        live(each.push(next)) == (if next.len() > 0 {
            live(each).push(next)
        } else {
            live(each)
        }),
{
    reveal(Seq::filter);
    assert(each.push(next).drop_last() == each);
    let grown = each.push(next);
    let done = each.len() as int;
    assert forall|i: int| 0 <= i < done + 1 implies resumed(
        before.take(done + 1)[i],
        #[trigger] grown[i],
    ) by {
        if i < done {
            assert(before.take(done)[i] == before[i]);
            assert(resumed(before.take(done)[i], each[i]));
        }
    }
}

/// One pass over the coroutines: resumes each of them once, in their order,
/// and drops those that this leaves empty. No coroutine is resumed twice,
/// and none enters during the pass.
///
/// The pass ends at the first stack whose top step the world refuses. That
/// stack and those behind it are then left as they were, the ones before it
/// have been resumed, and the error names the refused step.
pub fn update_coroutines(coroutines: &mut Coroutines, world: &mut World) -> (r: Result<
    (),
    CoroutineError,
>)
    ensures
        final(coroutines)@.len() <= old(coroutines)@.len(),
        r is Ok ==> passed(old(coroutines)@, final(coroutines)@, old(coroutines)@.len() as int),
        r is Err ==> exists|at: int|
            0 <= at < old(coroutines)@.len() && old(coroutines)@[at].len() > 0
                && r->Err_0.step == old(coroutines)@[at].last().id()
                && #[trigger] passed(old(coroutines)@, final(coroutines)@, at),
{
    let ghost before = coroutines@;
    let ghost mut each: Seq<Seq<Slot>> = Seq::empty();
    let mut i: usize = 0;
    assert(live(each) =~= Seq::<Seq<Slot>>::empty()) by {
        reveal(Seq::filter);
    }
    assert(coroutines@.take(0) =~= live(each));
    assert(coroutines@.skip(0) =~= before.skip(0));
    while i < coroutines.stacks.len()
        invariant
            before == old(coroutines)@,
            i <= coroutines.stacks@.len(),
            each.len() + coroutines.stacks@.len() - i == before.len(),
            each_resumed(before.take(each.len() as int), each),
            coroutines@.take(i as int) == live(each),
            coroutines@.skip(i as int) == before.skip(each.len() as int),
        decreases coroutines.stacks@.len() - i,
    {
        let ghost at = each.len() as int;
        let ghost held = coroutines@;
        assert(held[i as int] == before[at]) by {
            assert(held.skip(i as int)[0] == before.skip(at)[0]);
        }
        assert(coroutines.stacks[i as int]@ == before[at]);
        let resumed = coroutines.stacks[i].resume(world);
        let ghost next = coroutines.stacks[i as int]@;
        let ghost moved = coroutines@;
        proof {
            assert(moved =~= held.update(i as int, next));
            if resumed is Err {
                assert(next == before[at]);
                assert(moved =~= held);
            }
        }
        match coroutines.after_resume(i, resumed) {
            Err(error) => {
                proof {
                    assert(coroutines@ =~= coroutines@.take(i as int) + coroutines@.skip(i as int));
                    assert(passed(before, coroutines@, at));
                    assert(before[at].len() > 0);
                    assert(error.step == before[at].last().id());
                    law_pass_adds_nothing(before, coroutines@, at);
                }
                return Err(error);
            },
            Ok(there) => {
                proof {
                    lemma_pass_goes_on(before, each, next);
                    assert(held.skip(i as int + 1) =~= held.skip(i as int).skip(1));
                    assert(before.skip(at + 1) =~= before.skip(at).skip(1));
                    if next.len() == 0 {
                        assert(coroutines@.take(i as int) =~= held.take(i as int));
                        assert(coroutines@.skip(i as int) =~= held.skip(i as int + 1));
                    } else {
                        assert(coroutines@.take(i as int + 1) =~= held.take(i as int).push(next));
                        assert(coroutines@.skip(i as int + 1) =~= held.skip(i as int + 1));
                    }
                }
                i = there;
            },
        }
        proof {
            each = each.push(next);
        }
    }
    proof {
        assert(coroutines@.take(i as int) =~= coroutines@);
        assert(before.take(before.len() as int) =~= before);
        assert(before.skip(before.len() as int) =~= Seq::<Seq<Slot>>::empty());
        assert(coroutines@ =~= live(each) + before.skip(before.len() as int));
        law_pass_adds_nothing(before, coroutines@, before.len() as int);
    }
    Ok(())
}

} // verus!
