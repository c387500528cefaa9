//! The scheduler as mathematics: a coroutine is a sequence of slots with
//! its active step at the end, and one resumption rewrites that end.

use vstd::prelude::*;

use crate::host::{BoxedCoroutine, Slot, StepId};

verus! {

/// The steps that the slots were issued for, slot by slot.
pub open spec fn steps_of(slots: Seq<Slot>) -> Seq<BoxedCoroutine> {
    slots.map_values(|slot: Slot| slot.step())
}

/// The handles of the slots, slot by slot.
pub open spec fn handles_of(slots: Seq<Slot>) -> Seq<StepId> {
    slots.map_values(|slot: Slot| slot.id())
}

/// What the scheduler learns from running the step on top of a stack.
pub struct Outcome {
    /// Whether the step is finished.
    pub stop: bool,
    /// The slots of the children that the step asked for, in the order in
    /// which they go onto the stack: the child listed last comes first.
    pub pushed: Seq<Slot>,
}

/// A stack once the result of its top step has been interpreted: a finished
/// step leaves, a continuing one stays where it is, and the children go on
/// top in the order of `pushed`.
pub open spec fn settled(stack: Seq<Slot>, stop: bool, pushed: Seq<Slot>) -> Seq<Slot>
    recommends
        stack.len() > 0,
{
    (if stop {
        stack.drop_last()
    } else {
        stack
    }) + pushed
}

/// One resumption of `stack`. An empty stack has no step to run and stays as
/// it is.
pub open spec fn advanced(stack: Seq<Slot>, outcome: Outcome) -> Seq<Slot> {
    if stack.len() == 0 {
        stack
    } else {
        settled(stack, outcome.stop, outcome.pushed)
    }
}

/// `after` is `before` resumed once, whatever its top step returned.
pub open spec fn resumed(before: Seq<Slot>, after: Seq<Slot>) -> bool {
    exists|outcome: Outcome| after == #[trigger] advanced(before, outcome)
}

/// The handles given back to the world once the top step of `stack` has
/// returned `stop`: one that stops is given back, and no other.
pub open spec fn given_back(released: Seq<StepId>, stack: Seq<Slot>, stop: bool) -> Seq<
    StepId,
>
    recommends
        stack.len() > 0,
{
    if stop {
        released.push(stack.last().id())
    } else {
        released
    }
}

/// One resumption of `before`, whatever its top step returned, told together
/// with what it gave back to the world: the stack became `after`, and the
/// handle of the top step was added to `released` exactly if the step
/// stopped.
pub open spec fn resumed_giving_back(
    before: Seq<Slot>,
    released: Seq<StepId>,
    after: Seq<Slot>,
    released_after: Seq<StepId>,
) -> bool {
    exists|outcome: Outcome|
        after == #[trigger] advanced(before, outcome) && released_after == (if before.len() == 0 {
            released
        } else {
            given_back(released, before, outcome.stop)
        })
}

/// `after` is `before` once its top step has returned `stop` together with
/// the children `children`: the slots that came on top were issued for the
/// children, the one listed last first, so that the one listed first is
/// topmost. Which handles they hold is the world's choice.
pub open spec fn interpreted(
    before: Seq<Slot>,
    stop: bool,
    children: Seq<BoxedCoroutine>,
    after: Seq<Slot>,
) -> bool {
    exists|pushed: Seq<Slot>|
        steps_of(pushed) == children.reverse() && after == #[trigger] settled(before, stop, pushed)
}

/// A stack after one resumption per outcome, the first outcome first.
pub open spec fn run(stack: Seq<Slot>, outcomes: Seq<Outcome>) -> Seq<Slot>
    decreases outcomes.len(),
{
    if outcomes.len() == 0 {
        stack
    } else {
        advanced(run(stack, outcomes.drop_last()), outcomes.last())
    }
}

/// The step stopped and asked for no children.
pub open spec fn plain_stop(outcome: Outcome) -> bool {
    outcome.stop && outcome.pushed.len() == 0
}

/// The step asked to run again and for no children.
pub open spec fn plain_continue(outcome: Outcome) -> bool {
    !outcome.stop && outcome.pushed.len() == 0
}

/// Whether a stack still holds a step.
pub open spec fn in_progress() -> spec_fn(Seq<Slot>) -> bool {
    |stack: Seq<Slot>| stack.len() > 0
}

/// The stacks that still hold a step, in their order.
pub open spec fn live(stacks: Seq<Seq<Slot>>) -> Seq<Seq<Slot>> {
    stacks.filter(in_progress())
}

/// `after` holds, place by place, the stacks of `before` resumed once each.
pub open spec fn each_resumed(before: Seq<Seq<Slot>>, after: Seq<Seq<Slot>>) -> bool {
    &&& after.len() == before.len()
    &&& forall|i: int| 0 <= i < before.len() ==> resumed(before[i], #[trigger] after[i])
}

/// `after` is `before` once a pass has gone through its first `done` stacks:
/// each of those was resumed once and dropped if that left it empty, and
/// the others stand behind them as they were.
pub open spec fn passed(before: Seq<Seq<Slot>>, after: Seq<Seq<Slot>>, done: int) -> bool {
    &&& 0 <= done <= before.len()
    &&& exists|each: Seq<Seq<Slot>>|
        #[trigger] each_resumed(before.take(done), each) && after == live(each) + before.skip(done)
}

} // verus!
