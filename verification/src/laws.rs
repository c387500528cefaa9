//! What holds of the scheduler over any number of ticks, proved from the
//! model that the contracts of the stack and of the pass are written in.

use vstd::prelude::*;

use crate::compose::{flattened, IntoCoroutines};
use crate::host::{BoxedCoroutine, Slot};
use crate::model::{
    advanced, each_resumed, interpreted, live, passed, plain_continue, plain_stop, resumed, run,
    settled, steps_of, Outcome,
};

verus! {

/// One step per tick. While every step that runs stops and asks for no
/// children, each tick takes exactly one slot off the stack: after `k` ticks
/// the lowest `stack.len() - k` slots are left, so a stack of `n` steps is
/// empty after `n` ticks and not before.
pub proof fn law_one_step_per_tick(stack: Seq<Slot>, outcomes: Seq<Outcome>)
    requires
        outcomes.len() <= stack.len(),
        forall|i: int| 0 <= i < outcomes.len() ==> plain_stop(#[trigger] outcomes[i]),
    ensures
        run(stack, outcomes) == stack.take(stack.len() - outcomes.len()),
        run(stack, outcomes).len() == 0 <==> outcomes.len() == stack.len(),
    decreases outcomes.len(),
{
    if outcomes.len() > 0 {
        let earlier = outcomes.drop_last();
        assert forall|i: int| 0 <= i < earlier.len() implies plain_stop(#[trigger] earlier[i]) by {
            assert(earlier[i] == outcomes[i]);
        }
        law_one_step_per_tick(stack, earlier);
        assert(plain_stop(outcomes.last()));
        let left = stack.take(stack.len() - earlier.len());
        assert(left.drop_last() + outcomes.last().pushed =~= stack.take(
            stack.len() - outcomes.len(),
        ));
    } else {
        assert(stack.take(stack.len() as int) =~= stack);
    }
}

/// Steps run in the order in which they were listed. On top of `base` stand
/// the slots `listed`, put there last to first, as a launch or a parent
/// does. While each of them in turn stops without children, after `k`
/// ticks the first `k` have run and left and the next to run is `listed[k]`;
/// once all have left, `base` stands as it was.
pub proof fn law_listed_order(base: Seq<Slot>, listed: Seq<Slot>, outcomes: Seq<Outcome>)
    requires
        outcomes.len() <= listed.len(),
        forall|i: int| 0 <= i < outcomes.len() ==> plain_stop(#[trigger] outcomes[i]),
    ensures
        run(base + listed.reverse(), outcomes) == base + listed.skip(
            outcomes.len() as int,
        ).reverse(),
        outcomes.len() < listed.len() ==> run(base + listed.reverse(), outcomes).last()
            == listed[outcomes.len() as int],
        outcomes.len() == listed.len() ==> run(base + listed.reverse(), outcomes) == base,
{
    let stack = base + listed.reverse();
    law_one_step_per_tick(stack, outcomes);
    let rest = listed.skip(outcomes.len() as int);
    assert(stack.take(stack.len() - outcomes.len()) =~= base + rest.reverse());
    if outcomes.len() == listed.len() {
        assert(base + rest.reverse() =~= base);
    }
}

/// A launched coroutine runs its steps in the order in which they were
/// written. A stack whose slots were issued for `steps`, the slot of the
/// last step at the bottom, is what a launch builds. While each step that
/// runs stops without children, the step that runs on tick `k + 1` is
/// `steps[k]`, whether the steps were written flat or nested.
pub proof fn law_launch_runs_in_written_order(
    stack: Seq<Slot>,
    steps: Seq<BoxedCoroutine>,
    outcomes: Seq<Outcome>,
)
    requires
        steps_of(stack) == steps.reverse(),
        outcomes.len() < steps.len(),
        forall|i: int| 0 <= i < outcomes.len() ==> plain_stop(#[trigger] outcomes[i]),
    ensures
        run(stack, outcomes).len() == steps.len() - outcomes.len(),
        run(stack, outcomes).last().step() == steps[outcomes.len() as int],
{
    assert(steps_of(stack).len() == stack.len());
    law_one_step_per_tick(stack, outcomes);
    let at = stack.len() - outcomes.len() - 1;
    assert(run(stack, outcomes).last() == stack[at]);
    assert(steps_of(stack)[at] == stack[at].step());
}

/// Children run before their parent runs again, first listed first. The
/// step on top of `before` returned `stop` and the children `children`, and
/// `after` is the stack once that has been interpreted. Then the slots of
/// the children lie on top of what the parent left, the last listed lowest
/// and the first listed topmost; a parent that continues stands right below
/// them and one that stops has left. While each child in turn stops without
/// children of its own, they run in listed order, and then the stack is what
/// the parent left of it, with a continuing parent on top.
pub proof fn law_children_first(
    before: Seq<Slot>,
    stop: bool,
    children: Seq<BoxedCoroutine>,
    after: Seq<Slot>,
    outcomes: Seq<Outcome>,
)
    requires
        before.len() > 0,
        interpreted(before, stop, children, after),
        outcomes.len() <= children.len(),
        forall|i: int| 0 <= i < outcomes.len() ==> plain_stop(#[trigger] outcomes[i]),
    ensures
        ({
            let below = if stop {
                before.drop_last()
            } else {
                before
            };
            &&& after.len() == below.len() + children.len()
            &&& after.take(below.len() as int) == below
            &&& forall|i: int|
                0 <= i < children.len() ==> (#[trigger] after[below.len() + i]).step()
                    == children[children.len() - 1 - i]
            &&& children.len() > 0 ==> after.last().step() == children[0]
            &&& outcomes.len() < children.len() ==> run(after, outcomes).last().step()
                == children[outcomes.len() as int]
            &&& outcomes.len() == children.len() ==> run(after, outcomes) == below
            &&& outcomes.len() == children.len() && !stop ==> run(after, outcomes).last()
                == before.last()
        }),
{
    let below = if stop {
        before.drop_last()
    } else {
        before
    };
    let pushed = choose|pushed: Seq<Slot>|
        steps_of(pushed) == children.reverse() && after == #[trigger] settled(before, stop, pushed);
    let n = children.len() as int;
    assert(steps_of(pushed).len() == pushed.len());
    assert(after.take(below.len() as int) =~= below);
    assert forall|i: int| 0 <= i < n implies (#[trigger] after[below.len() + i]).step()
        == children[n - 1 - i] by {
        assert(after[below.len() + i] == pushed[i]);
        assert(steps_of(pushed)[i] == pushed[i].step());
    }
    let listed = pushed.reverse();
    assert(listed.reverse() =~= pushed);
    law_listed_order(below, listed, outcomes);
    if n > 0 {
        assert(after.last() == after[below.len() + (n - 1)]);
    }
    if outcomes.len() < n {
        let k = outcomes.len() as int;
        assert(listed[k] == pushed[n - 1 - k]);
        assert(steps_of(pushed)[n - 1 - k] == pushed[n - 1 - k].step());
    }
}

/// A step runs only once everything above it has left. Let `above` stand on
/// top of `below`. Over any ticks during which `above` never runs empty
/// before the last of them, whatever its steps return and however many
/// children they and their children ask for, `below` stays as it is: none of
/// its steps runs, leaves or moves. When the last of these ticks leaves
/// nothing of `above` and of what it brought, the stack is `below` again and
/// its top step is the next to run.
pub proof fn law_lower_steps_wait(below: Seq<Slot>, above: Seq<Slot>, outcomes: Seq<Outcome>)
    requires
        forall|k: int| 0 <= k < outcomes.len() ==> run(above, #[trigger] outcomes.take(k)).len() > 0,
    ensures
        run(below + above, outcomes) == below + run(above, outcomes),
        run(above, outcomes).len() == 0 ==> run(below + above, outcomes) == below,
    decreases outcomes.len(),
{
    if outcomes.len() > 0 {
        let earlier = outcomes.drop_last();
        assert forall|k: int| 0 <= k < earlier.len() implies run(
            above,
            #[trigger] earlier.take(k),
        ).len() > 0 by {
            assert(earlier.take(k) =~= outcomes.take(k));
        }
        law_lower_steps_wait(below, above, earlier);
        assert(earlier =~= outcomes.take(outcomes.len() - 1));
        let top = run(above, earlier);
        assert(top.len() > 0);
        let last = outcomes.last();
        assert(settled(below + top, last.stop, last.pushed) =~= below + settled(
            top,
            last.stop,
            last.pushed,
        ));
    }
    assert(run(above, outcomes).len() == 0 ==> below + run(above, outcomes) =~= below);
}

/// A step that asks to run again, and for no children, is the step that runs
/// on the next tick: the stack is exactly as it was.
pub proof fn law_continue_runs_again(stack: Seq<Slot>, outcome: Outcome)
    requires
        plain_continue(outcome),
    ensures
        advanced(stack, outcome) == stack,
{
    assert(stack + outcome.pushed =~= stack);
}

/// Nesting does not change a sequence of steps. However three parts are
/// grouped, they stand for the steps of the first, then those of the second,
/// then those of the third: a nested sequence launches the same steps in the
/// same order as the flat one.
pub proof fn law_nesting_flattens<A: IntoCoroutines, B: IntoCoroutines, C: IntoCoroutines>(
    a: A,
    b: B,
    c: C,
)
    ensures
        (a, (b, c)).steps() == a.steps() + b.steps() + c.steps(),
        ((a, b), c).steps() == a.steps() + b.steps() + c.steps(),
        (a, b, c).steps() == a.steps() + b.steps() + c.steps(),
{
    assert(a.steps() + (b.steps() + c.steps()) =~= a.steps() + b.steps() + c.steps());
}

/// Single steps composed in any grouping are those steps, in the order in
/// which they are written.
pub proof fn law_steps_in_written_order(a: BoxedCoroutine, b: BoxedCoroutine, c: BoxedCoroutine)
    ensures
        (a, (b, c)).steps() == seq![a, b, c],
        ((a, b), c).steps() == seq![a, b, c],
        (a, b, c).steps() == seq![a, b, c],
{
    law_nesting_flattens(a, b, c);
    assert(seq![a] + seq![b] + seq![c] =~= seq![a, b, c]);
}

/// A list of single steps stands for exactly those steps, in its order.
pub proof fn law_list_of_steps(items: Seq<BoxedCoroutine>)
    ensures
        flattened(items) == items,
    decreases items.len(),
{
    if items.len() > 0 {
        law_list_of_steps(items.drop_last());
        assert(items.drop_last() + seq![items.last()] =~= items);
    }
}

/// A resumption touches the top of a stack and nothing else: every step
/// below the top is still in its place afterwards. A stack is resumed only if
/// it is like that, and an empty one only if it stays empty.
pub proof fn law_resumed_keeps_lower_steps(before: Seq<Slot>, after: Seq<Slot>)
    ensures
        resumed(before, after) <==> (if before.len() == 0 {
            after.len() == 0
        } else {
            before.drop_last().is_prefix_of(after)
        }),
{
    if before.len() == 0 {
        if after.len() == 0 {
            assert(after =~= before);
            assert(after == advanced(before, Outcome { stop: false, pushed: Seq::empty() }));
        }
    } else {
        let lower = before.drop_last();
        if lower.is_prefix_of(after) {
            let outcome = Outcome { stop: true, pushed: after.skip(lower.len() as int) };
            assert(after =~= lower + after.skip(lower.len() as int));
            assert(after == advanced(before, outcome));
        }
        if resumed(before, after) {
            let outcome = choose|outcome: Outcome| after == #[trigger] advanced(before, outcome);
            assert(after == settled(before, outcome.stop, outcome.pushed));
            assert(lower =~= after.subrange(0, lower.len() as int));
        }
    }
}

/// Stacks do not depend on each other. A pass over the stacks `left`
/// followed by the stacks `right` is a pass over `left` and a pass over
/// `right`, side by side: what becomes of a stack is one resumption of that
/// stack, whatever the others hold and whatever their steps return.
pub proof fn law_stacks_independent(
    left: Seq<Seq<Slot>>,
    right: Seq<Seq<Slot>>,
    after: Seq<Seq<Slot>>,
)
    ensures
        passed(left + right, after, (left + right).len() as int) <==> exists|
            l: Seq<Seq<Slot>>,
            r: Seq<Seq<Slot>>,
        |
            #![trigger passed(left, l, left.len() as int), passed(right, r, right.len() as int)]
            passed(left, l, left.len() as int) && passed(right, r, right.len() as int) && after
                == l + r,
{
    let all = left + right;
    let n = all.len() as int;
    let nl = left.len() as int;
    let nr = right.len() as int;
    assert(all.take(n) =~= all);
    assert(left.take(nl) =~= left);
    assert(right.take(nr) =~= right);
    assert(all.skip(n) =~= Seq::<Seq<Slot>>::empty());
    assert(left.skip(nl) =~= Seq::<Seq<Slot>>::empty());
    assert(right.skip(nr) =~= Seq::<Seq<Slot>>::empty());
    if passed(all, after, n) {
        let each = choose|each: Seq<Seq<Slot>>|
            #[trigger] each_resumed(all.take(n), each) && after == live(each) + all.skip(n);
        let el = each.take(nl);
        let er = each.skip(nl);
        assert(each =~= el + er);
        Seq::filter_distributes_over_add(el, er, crate::model::in_progress());
        assert forall|i: int| 0 <= i < nl implies resumed(left[i], #[trigger] el[i]) by {
            assert(all[i] == left[i]);
            assert(resumed(all.take(n)[i], each[i]));
        }
        assert forall|i: int| 0 <= i < nr implies resumed(right[i], #[trigger] er[i]) by {
            assert(all[i + nl] == right[i]);
            assert(resumed(all.take(n)[i + nl], each[i + nl]));
        }
        assert(each_resumed(left.take(nl), el));
        assert(each_resumed(right.take(nr), er));
        let l = live(el);
        let r = live(er);
        assert(l =~= live(el) + left.skip(nl));
        assert(r =~= live(er) + right.skip(nr));
        assert(after =~= l + r);
        assert(passed(left, l, nl) && passed(right, r, nr) && after == l + r);
    }
    if exists|l: Seq<Seq<Slot>>, r: Seq<Seq<Slot>>|
        #![trigger passed(left, l, left.len() as int), passed(right, r, right.len() as int)]
        passed(left, l, left.len() as int) && passed(right, r, right.len() as int) && after == l
            + r {
        let (l, r) = choose|l: Seq<Seq<Slot>>, r: Seq<Seq<Slot>>|
            #![trigger passed(left, l, left.len() as int), passed(right, r, right.len() as int)]
            passed(left, l, left.len() as int) && passed(right, r, right.len() as int) && after
                == l + r;
        let el = choose|each: Seq<Seq<Slot>>|
            #[trigger] each_resumed(left.take(nl), each) && l == live(each) + left.skip(nl);
        let er = choose|each: Seq<Seq<Slot>>|
            #[trigger] each_resumed(right.take(nr), each) && r == live(each) + right.skip(nr);
        let each = el + er;
        Seq::filter_distributes_over_add(el, er, crate::model::in_progress());
        assert forall|i: int| 0 <= i < n implies resumed(all.take(n)[i], #[trigger] each[i]) by {
            if i < nl {
                assert(resumed(left.take(nl)[i], el[i]));
            } else {
                assert(resumed(right.take(nr)[i - nl], er[i - nl]));
            }
        }
        assert(each_resumed(all.take(n), each));
        assert(after =~= live(each) + all.skip(n));
    }
}

/// A pass brings no stack in: each stack that it leaves comes from one that
/// it found, so at no point of a pass are there more stacks than before it.
pub proof fn law_pass_adds_nothing(before: Seq<Seq<Slot>>, after: Seq<Seq<Slot>>, done: int)
    requires
        passed(before, after, done),
    ensures
        after.len() <= before.len(),
{
    let each = choose|each: Seq<Seq<Slot>>|
        #[trigger] each_resumed(before.take(done), each) && after == live(each) + before.skip(
            done,
        );
    each.lemma_filter_len(crate::model::in_progress());
}

/// A coroutine launched while a pass is under way waits for the next pass.
/// The pass goes over `running` alone; the stacks that were launched
/// meanwhile, `arrivals`, are joined with what the pass left only when it is
/// over. Each of them is then there, exactly as it was launched: none was
/// resumed and none was lost.
pub proof fn law_arrivals_wait(
    arrivals: Seq<Seq<Slot>>,
    running: Seq<Seq<Slot>>,
    after: Seq<Seq<Slot>>,
)
    requires
        passed(running, after, running.len() as int),
    ensures
        (arrivals + after).len() <= arrivals.len() + running.len(),
        (arrivals + after).take(arrivals.len() as int) == arrivals,
        (arrivals + after).skip(arrivals.len() as int) == after,
{
    law_pass_adds_nothing(running, after, running.len() as int);
    assert((arrivals + after).take(arrivals.len() as int) =~= arrivals);
    assert((arrivals + after).skip(arrivals.len() as int) =~= after);
}

} // verus!
