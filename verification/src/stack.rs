//! One coroutine: a stack of registered steps, the active one on top.

use bevy::ecs::world::World;
use vstd::prelude::*;

use crate::error::CoroutineError;
use crate::host::{
    register, remove, run_step, BoxedCoroutine, HostError, Released, Removed, Slot, StepId,
};
use crate::model::{
    advanced, given_back, handles_of, interpreted, resumed, resumed_giving_back, settled,
    steps_of, Outcome,
};
use crate::result::CoResult;

verus! {

/// The same items, last to first.
pub fn reversed<T>(items: Vec<T>) -> (r: Vec<T>)
    ensures
        r@ == items@.reverse(),
{
    let mut items = items;
    let mut r: Vec<T> = Vec::new();
    let ghost all = items@;
    while items.len() > 0
        invariant
            items@ == all.take(all.len() - r@.len()),
            r@.len() <= all.len(),
            r@ == all.reverse().take(r@.len() as int),
        decreases items@.len(),
    {
        let item = items.pop();
        match item {
            Some(item) => {
                r.push(item);
            },
            None => {},
        }
    }
    assert(r@ == all.reverse());
    r
}

/// Registers `steps` with the world, the first of them first, and returns
/// their slots in that order: slot `i` is the one that the world issued for
/// `steps[i]`.
pub fn register_steps(world: &mut World, steps: Vec<BoxedCoroutine>) -> (slots: Vec<Slot>)
    ensures
        steps_of(slots@) == steps@,
{
    let mut slots: Vec<Slot> = Vec::new();
    let ghost all = steps@;
    for step in it: steps
        invariant
            it.seq() == all,
            steps_of(slots@) == all.take(it.index() as int),
    {
        let ghost before = slots@;
        let slot = register(world, step);
        slots.push(slot);
        assert(step == all[it.index() as int]);
        assert(slots@ == before.push(slot));
        assert(steps_of(slots@) =~= steps_of(before).push(step));
        assert(all.take(it.index() + 1) =~= all.take(it.index() as int).push(step));
    }
    assert(all.take(all.len() as int) =~= all);
    slots
}

/// A coroutine in progress. The slots are kept bottom to top: the last one
/// holds the step that runs next, and no other step of the stack runs before
/// it has left.
pub struct CoroutineStack {
    stack: Vec<Slot>,
    released: Released,
}

impl View for CoroutineStack {
    type V = Seq<Slot>;

    closed spec fn view(&self) -> Seq<Slot> {
        self.stack@
    }
}

impl CoroutineStack {
    /// The handles of the steps that have stopped and that the world has
    /// removed for this stack, the first to go first.
    pub closed spec fn released(&self) -> Seq<StepId> {
        self.released@
    }

    /// A stack that holds `stack`, whose last slot is the active step.
    pub fn new(stack: Vec<Slot>) -> (r: Self)
        ensures
            r@ == stack@,
            r.released() == Seq::<StepId>::empty(),
    {
        CoroutineStack { stack, released: Released::new() }
    }

    /// The number of steps on the stack.
    pub fn len(&self) -> (n: usize)
        ensures
            n == self@.len(),
    {
        self.stack.len()
    }

    /// Whether the coroutine has run to its end.
    pub fn is_empty(&self) -> (b: bool)
        ensures
            b == (self@.len() == 0),
    {
        self.stack.len() == 0
    }

    /// The handles on the stack, bottom to top.
    pub fn handles(&self) -> (r: Vec<StepId>)
        ensures
            r@ == handles_of(self@),
    {
        let mut r: Vec<StepId> = Vec::new();
        let mut i: usize = 0;
        while i < self.stack.len()
            invariant
                i <= self.stack@.len(),
                r@ == handles_of(self.stack@.take(i as int)),
            decreases self.stack@.len() - i,
        {
            r.push(self.stack[i].handle());
            i += 1;
            assert(r@ =~= handles_of(self.stack@.take(i as int)));
        }
        assert(self.stack@.take(i as int) =~= self.stack@);
        r
    }

    /// The handle of the step that runs next, if there is one.
    pub fn top(&self) -> (r: Option<StepId>)
        ensures
            r == (if self@.len() == 0 {
                None
            } else {
                Some(self@.last().id())
            }),
    {
        let n = self.stack.len();
        if n == 0 {
            None
        } else {
            Some(self.stack[n - 1].handle())
        }
    }

    /// Rewrites the top of the stack as the result of the top step asks:
    /// takes the step off if it stopped, then puts `pushed` on top, its last
    /// slot topmost. The world is not asked for anything.
    pub fn settle(&mut self, stop: bool, pushed: Vec<Slot>)
        requires
            old(self)@.len() > 0,
        ensures
            final(self)@ == settled(old(self)@, stop, pushed@),
            final(self).released() == old(self).released(),
    {
        if stop {
            self.stack.pop();
        }
        let mut pushed = pushed;
        self.stack.append(&mut pushed);
    }

    /// The top step asked to run again and for `children`. It stays where it
    /// is. The children are registered, the one listed last first, and
    /// pushed in that order, so that the one listed first runs next.
    pub fn stay(&mut self, world: &mut World, children: Vec<BoxedCoroutine>)
        requires
            old(self)@.len() > 0,
        ensures
            interpreted(old(self)@, false, children@, final(self)@),
            final(self).released() == old(self).released(),
    {
        let pushed = register_steps(world, reversed(children));
        self.settle(false, pushed);
        assert(self@ == settled(old(self)@, false, pushed@));
    }

    /// The top step stopped and asked for `children`, and `removed` is what
    /// the world answered when asked to remove it. Where the world removed
    /// it, it leaves the stack, and the children are registered, the one
    /// listed last first, and pushed in that order. Where the world refused,
    /// the refusal is handed on with the name of the step, the stack is left
    /// as it was, and the children are dropped unregistered.
    pub fn leave(
        &mut self,
        world: &mut World,
        removed: Result<Removed, HostError>,
        children: Vec<BoxedCoroutine>,
    ) -> (r: Result<(), CoroutineError>)
        requires
            old(self)@.len() > 0,
            removed is Ok ==> removed->Ok_0.id() == old(self)@.last().id(),
        ensures
            removed is Ok ==> r is Ok,
            removed is Ok ==> interpreted(old(self)@, true, children@, final(self)@),
            removed is Ok ==> final(self).released() == old(self).released().push(
                old(self)@.last().id(),
            ),
            removed is Err ==> r == Err::<(), CoroutineError>(
                CoroutineError { step: old(self)@.last().id(), source: removed->Err_0 },
            ),
            removed is Err ==> final(self)@ == old(self)@,
            removed is Err ==> final(self).released() == old(self).released(),
    {
        match removed {
            Err(source) => {
                let step = self.stack[self.stack.len() - 1].handle();
                Err(CoroutineError { step, source })
            },
            Ok(word) => {
                self.released.record(word);
                let pushed = register_steps(world, reversed(children));
                self.settle(true, pushed);
                assert(self@ == settled(old(self)@, true, pushed@));
                Ok(())
            },
        }
    }

    /// Interprets `output`, which the step on top of the stack has just
    /// returned. A step that stops is removed from the world and, unless the
    /// world refuses, from the stack, as [`CoroutineStack::leave`] says; one
    /// that continues stays, as [`CoroutineStack::stay`] says. Either way the
    /// slots that come on top are those of the children, the first listed
    /// topmost.
    pub fn interpret(&mut self, world: &mut World, output: CoResult) -> (r: Result<
        (),
        CoroutineError,
    >)
        requires
            old(self)@.len() > 0,
        ensures
            !output.stops() ==> r is Ok,
            r is Ok ==> interpreted(
                old(self)@,
                output.stops(),
                output.subroutines@,
                final(self)@,
            ),
            r is Ok ==> final(self)@.len() == old(self)@.len() - (if output.stops() {
                1int
            } else {
                0int
            }) + output.subroutines@.len(),
            r is Ok ==> final(self).released() == given_back(
                old(self).released(),
                old(self)@,
                output.stops(),
            ),
            r is Err ==> final(self)@ == old(self)@ && r->Err_0.step == old(self)@.last().id(),
            r is Err ==> final(self).released() == old(self).released(),
    {
        let r = if output.is_break() {
            let top = self.stack[self.stack.len() - 1].handle();
            let removed = remove(world, top);
            self.leave(world, removed, output.subroutines)
        } else {
            self.stay(world, output.subroutines);
            Ok(())
        };
        proof {
            if r is Ok {
                let pushed = choose|pushed: Seq<Slot>|
                    steps_of(pushed) == output.subroutines@.reverse() && self@ == #[trigger] settled(
                        old(self)@,
                        output.stops(),
                        pushed,
                    );
                assert(steps_of(pushed).len() == pushed.len());
            }
        }
        r
    }

    /// Takes what the world answered when asked to run the step on top of
    /// the stack. A refusal is handed on with the name of the step, and the
    /// stack is left as it was. A result is interpreted as
    /// [`CoroutineStack::interpret`] says.
    pub fn absorb(&mut self, world: &mut World, ran: Result<CoResult, HostError>) -> (r: Result<
        (),
        CoroutineError,
    >)
        requires
            old(self)@.len() > 0,
        ensures
            ran is Err ==> r == Err::<(), CoroutineError>(
                CoroutineError { step: old(self)@.last().id(), source: ran->Err_0 },
            ) && final(self)@ == old(self)@,
            ran is Ok && !ran->Ok_0.stops() ==> r is Ok,
            ran is Ok && r is Ok ==> interpreted(
                old(self)@,
                ran->Ok_0.stops(),
                ran->Ok_0.subroutines@,
                final(self)@,
            ),
            ran is Ok && r is Ok ==> final(self).released() == given_back(
                old(self).released(),
                old(self)@,
                ran->Ok_0.stops(),
            ),
            r is Err ==> final(self)@ == old(self)@ && r->Err_0.step == old(self)@.last().id(),
            r is Err ==> final(self).released() == old(self).released(),
    {
        match ran {
            Err(source) => {
                let step = self.stack[self.stack.len() - 1].handle();
                Err(CoroutineError { step, source })
            },
            Ok(output) => self.interpret(world, output),
        }
    }

    /// Runs the step on top of the stack once and hands what the world
    /// answers to [`CoroutineStack::absorb`]. An empty stack is left alone.
    ///
    /// When the world refuses to run the step, or to remove it once it has
    /// stopped, the stack is left as it was and the error names the step.
    pub fn resume(&mut self, world: &mut World) -> (r: Result<(), CoroutineError>)
        ensures
            old(self)@.len() == 0 ==> r is Ok,
            r is Ok ==> resumed(old(self)@, final(self)@),
            r is Ok ==> resumed_giving_back(
                old(self)@,
                old(self).released(),
                final(self)@,
                final(self).released(),
            ),
            r is Err ==> final(self)@ == old(self)@ && r->Err_0.step == old(self)@.last().id(),
            r is Err ==> final(self).released() == old(self).released(),
    {
        let top = match self.top() {
            None => {
                proof {
                    let idle = Outcome { stop: false, pushed: Seq::empty() };
                    assert(self@ == advanced(self@, idle));
                }
                return Ok(());
            },
            Some(top) => top,
        };
        let ran = run_step(world, top);
        let r = self.absorb(world, ran);
        proof {
            if r is Ok {
                let stop = ran->Ok_0.stops();
                let pushed = choose|pushed: Seq<Slot>|
                    steps_of(pushed) == ran->Ok_0.subroutines@.reverse() && self@
                        == #[trigger] settled(old(self)@, stop, pushed);
                let outcome = Outcome { stop, pushed };
                assert(self@ == advanced(old(self)@, outcome));
            }
        }
        r
    }

    /// Gives up a coroutine that has not run to its end: asks the world to
    /// remove each of its steps, the top one first, so that no handle stays
    /// registered for a stack that is gone, and leaves the stack empty. Each
    /// step is either given back or comes back in a refusal that names it;
    /// the refusals are returned in the order in which they came.
    pub fn discard(&mut self, world: &mut World) -> (refused: Vec<CoroutineError>)
        ensures
            final(self)@.len() == 0,
            old(self).released().is_prefix_of(final(self).released()),
            final(self).released().len() + refused@.len() == old(self).released().len() + old(
                self,
            )@.len(),
            forall|i: int|
                old(self).released().len() <= i < final(self).released().len() ==> handles_of(
                    old(self)@,
                ).contains(#[trigger] final(self).released()[i]),
            forall|i: int|
                0 <= i < refused@.len() ==> handles_of(old(self)@).contains(
                    (#[trigger] refused@[i]).step,
                ),
    {
        let ghost all = self@;
        let ghost given = self.released();
        let mut refused: Vec<CoroutineError> = Vec::new();
        while self.stack.len() > 0
            invariant
                all == old(self)@,
                given == old(self).released(),
                self.stack@ == all.take(self.stack@.len() as int),
                self.stack@.len() <= all.len(),
                given.is_prefix_of(self.released()),
                self.released().len() + refused@.len() + self.stack@.len() == given.len()
                    + all.len(),
                forall|i: int|
                    given.len() <= i < self.released().len() ==> handles_of(all).contains(
                        #[trigger] self.released()[i],
                    ),
                forall|i: int|
                    0 <= i < refused@.len() ==> handles_of(all).contains(
                        (#[trigger] refused@[i]).step,
                    ),
            decreases self.stack@.len(),
        {
            let ghost at = self.stack@.len() - 1;
            let top = self.stack[self.stack.len() - 1].handle();
            self.stack.pop();
            assert(top == handles_of(all)[at]);
            match remove(world, top) {
                Ok(word) => {
                    self.released.record(word);
                },
                Err(source) => {
                    refused.push(CoroutineError { step: top, source });
                },
            }
        }
        refused
    }
}

} // verus!
