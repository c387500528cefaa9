use bevy::app::{App, Startup, Update};
use bevy::ecs::entity::Entity;
use bevy::ecs::system::{Commands, IntoSystem, Local, ResMut, Resource, SystemId};
use bevy::ecs::world::{Command, World};
use bevy_coroutine::{
    update_coroutines, BoxedCoroutine, CoResult, Coroutine, CoroutineError, CoroutineStack,
    Coroutines, Slot, StepId, Wait,
};

/// What the steps of a test write down, in the order in which they ran.
#[derive(Debug, Default, PartialEq, Eq)]
struct TestEvents(Vec<&'static str>);

impl Resource for TestEvents {}

/// The coroutines of an app, kept where commands can reach them.
#[derive(Default)]
struct Registry(Coroutines);

impl Resource for Registry {}

/// Launches a coroutine when the command queue is applied.
struct Launch(Coroutine);

impl Command for Launch {
    fn apply(self, world: &mut World) {
        let stack = self.0.register(world);
        world.resource_mut::<Registry>().0.push(stack);
    }
}

/// The pass as an app runs it: over the stacks taken out of the registry,
/// so that those launched meanwhile gather in the registry and join the
/// others afterwards.
fn run_pass(world: &mut World) {
    let mut running = std::mem::take(&mut world.resource_mut::<Registry>().0);
    let outcome = update_coroutines(&mut running, world);
    world.resource_mut::<Registry>().0.append(&mut running);
    outcome.unwrap();
}

fn step<M>(system: impl IntoSystem<(), CoResult, M> + 'static) -> BoxedCoroutine {
    BoxedCoroutine(Box::new(IntoSystem::into_system(system)))
}

fn stop_noting(label: &'static str) -> BoxedCoroutine {
    step(move |mut events: ResMut<TestEvents>| {
        events.0.push(label);
        CoResult::break_()
    })
}

/// A step that notes `label` each time it runs and stops on its `runs`-th
/// run.
fn noting_for(label: &'static str, runs: u32) -> BoxedCoroutine {
    step(move |mut events: ResMut<TestEvents>, mut seen: Local<u32>| {
        events.0.push(label);
        *seen += 1;
        if *seen >= runs {
            CoResult::break_()
        } else {
            CoResult::continue_()
        }
    })
}

fn new_world() -> World {
    let mut world = World::new();
    world.insert_resource(TestEvents::default());
    world.insert_resource(Registry::default());
    world
}

fn events(world: &World) -> Vec<&'static str> {
    world.resource::<TestEvents>().0.clone()
}

fn lengths(coroutines: &Coroutines) -> Vec<usize> {
    (0..coroutines.len()).map(|index| coroutines.get(index).unwrap().len()).collect()
}

fn stack_of(ids: &[StepId]) -> CoroutineStack {
    CoroutineStack::new(ids.iter().map(|id| Slot::adopt(*id)).collect())
}

fn handle(index: u32) -> StepId {
    SystemId::from_entity(Entity::from_raw(index))
}

#[test]
fn a_new_registry_is_empty() {
    let coroutines = Coroutines::new();
    assert!(coroutines.is_empty());
    assert_eq!(coroutines.len(), 0);
    assert!(coroutines.get(0).is_none());
    assert!(Coroutines::default().is_empty());
}

#[test]
fn push_puts_a_stack_behind_the_others() {
    let mut coroutines = Coroutines::new();
    coroutines.push(stack_of(&[handle(1)]));
    coroutines.push(stack_of(&[handle(2), handle(3)]));
    assert_eq!(coroutines.len(), 2);
    assert_eq!(coroutines.get(0).unwrap().handles(), vec![handle(1)]);
    assert_eq!(coroutines.get(1).unwrap().handles(), vec![handle(2), handle(3)]);
    assert!(coroutines.get(2).is_none());
}

#[test]
fn append_moves_the_stacks_over_in_order() {
    let mut first = Coroutines::new();
    first.push(stack_of(&[handle(1)]));
    let mut second = Coroutines::new();
    second.push(stack_of(&[handle(2)]));
    second.push(stack_of(&[handle(3), handle(4)]));
    first.append(&mut second);
    assert!(second.is_empty());
    assert_eq!(first.len(), 3);
    assert_eq!(first.get(0).unwrap().handles(), vec![handle(1)]);
    assert_eq!(first.get(1).unwrap().handles(), vec![handle(2)]);
    assert_eq!(first.get(2).unwrap().handles(), vec![handle(3), handle(4)]);
}

#[test]
fn apply_adds_one_stack_and_keeps_the_others() {
    let mut world = new_world();
    let mut coroutines = Coroutines::new();
    coroutines.push(stack_of(&[handle(77)]));
    Coroutine::new((stop_noting("a"), stop_noting("b"), stop_noting("c")))
        .apply(&mut coroutines, &mut world);
    assert_eq!(coroutines.len(), 2);
    assert_eq!(coroutines.get(0).unwrap().handles(), vec![handle(77)]);
    assert_eq!(coroutines.get(1).unwrap().len(), 3);
    // Nothing runs at launch.
    assert!(events(&world).is_empty());
}

#[test]
fn register_puts_the_first_step_on_top() {
    let mut world = new_world();
    let stack = Coroutine::new((stop_noting("first"), stop_noting("second"))).register(&mut world);
    assert_eq!(stack.len(), 2);
    world.run_system(stack.top().unwrap()).unwrap();
    world.run_system(stack.handles()[0]).unwrap();
    assert_eq!(events(&world), vec!["first", "second"]);
}

#[test]
fn a_stack_of_n_stopping_steps_takes_n_ticks() {
    let mut world = new_world();
    let mut coroutines = Coroutines::new();
    let steps: Vec<BoxedCoroutine> =
        vec![stop_noting("1"), stop_noting("2"), stop_noting("3"), stop_noting("4"), stop_noting("5")];
    Coroutine::new(steps).apply(&mut coroutines, &mut world);
    for tick in 1..5 {
        update_coroutines(&mut coroutines, &mut world).unwrap();
        assert_eq!(lengths(&coroutines), vec![5 - tick]);
        assert_eq!(events(&world).len(), tick);
    }
    update_coroutines(&mut coroutines, &mut world).unwrap();
    assert!(coroutines.is_empty());
    assert_eq!(events(&world), vec!["1", "2", "3", "4", "5"]);
}

#[test]
fn children_run_in_listed_order_before_a_continuing_parent() {
    let mut world = new_world();
    let mut coroutines = Coroutines::new();
    let parent = step(|mut events: ResMut<TestEvents>, mut seen: Local<u32>| {
        events.0.push("parent");
        *seen += 1;
        if *seen == 1 {
            CoResult::continue_().with_subroutines((
                step(|mut events: ResMut<TestEvents>| {
                    events.0.push("a");
                    CoResult::break_()
                        .with_subroutines((noting_for("a1", 2), stop_noting("a2")))
                }),
                stop_noting("b"),
                stop_noting("c"),
            ))
        } else {
            CoResult::break_()
        }
    });
    Coroutine::new((parent, stop_noting("after"))).apply(&mut coroutines, &mut world);
    let mut seen_lengths = Vec::new();
    while !coroutines.is_empty() {
        update_coroutines(&mut coroutines, &mut world).unwrap();
        seen_lengths.push(lengths(&coroutines));
        assert!(seen_lengths.len() <= 20);
    }
    assert_eq!(
        events(&world),
        vec!["parent", "a", "a1", "a1", "a2", "b", "c", "parent", "after"]
    );
    assert_eq!(
        seen_lengths,
        vec![
            vec![5],
            vec![6],
            vec![6],
            vec![5],
            vec![4],
            vec![3],
            vec![2],
            vec![1],
            vec![],
        ]
    );
}

#[test]
fn children_of_a_stopping_parent_take_its_place() {
    let mut world = new_world();
    let mut coroutines = Coroutines::new();
    let parent = step(|mut events: ResMut<TestEvents>| {
        events.0.push("parent");
        CoResult::break_().with_subroutines((stop_noting("a"), stop_noting("b"), stop_noting("c")))
    });
    Coroutine::new(parent).apply(&mut coroutines, &mut world);
    for expected in [3, 2, 1] {
        update_coroutines(&mut coroutines, &mut world).unwrap();
        assert_eq!(lengths(&coroutines), vec![expected]);
    }
    update_coroutines(&mut coroutines, &mut world).unwrap();
    assert!(coroutines.is_empty());
    assert_eq!(events(&world), vec!["parent", "a", "b", "c"]);
}

#[test]
fn a_continuing_step_runs_again_on_the_next_tick() {
    let mut world = new_world();
    let mut coroutines = Coroutines::new();
    Coroutine::new((noting_for("again", 3), stop_noting("next")))
        .apply(&mut coroutines, &mut world);
    let top = coroutines.get(0).unwrap().top();
    for tick in 1..3 {
        update_coroutines(&mut coroutines, &mut world).unwrap();
        assert_eq!(events(&world), vec!["again"; tick]);
        assert_eq!(coroutines.get(0).unwrap().top(), top);
        assert_eq!(lengths(&coroutines), vec![2]);
    }
    update_coroutines(&mut coroutines, &mut world).unwrap();
    update_coroutines(&mut coroutines, &mut world).unwrap();
    assert_eq!(events(&world), vec!["again", "again", "again", "next"]);
    assert!(coroutines.is_empty());
}

#[test]
fn stacks_advance_once_per_tick_whatever_the_others_do() {
    let mut world = new_world();
    let mut coroutines = Coroutines::new();
    Coroutine::new(noting_for("slow", 4)).apply(&mut coroutines, &mut world);
    Coroutine::new((stop_noting("x"), stop_noting("y"))).apply(&mut coroutines, &mut world);
    Coroutine::new(Vec::<BoxedCoroutine>::new()).apply(&mut coroutines, &mut world);
    assert_eq!(lengths(&coroutines), vec![1, 2, 0]);

    update_coroutines(&mut coroutines, &mut world).unwrap();
    assert_eq!(events(&world), vec!["slow", "x"]);
    assert_eq!(lengths(&coroutines), vec![1, 1]);

    update_coroutines(&mut coroutines, &mut world).unwrap();
    assert_eq!(events(&world), vec!["slow", "x", "slow", "y"]);
    assert_eq!(lengths(&coroutines), vec![1]);

    update_coroutines(&mut coroutines, &mut world).unwrap();
    update_coroutines(&mut coroutines, &mut world).unwrap();
    assert_eq!(events(&world), vec!["slow", "x", "slow", "y", "slow", "slow"]);
    assert!(coroutines.is_empty());
}

#[test]
fn a_pass_over_nothing_does_nothing() {
    let mut world = new_world();
    let mut coroutines = Coroutines::new();
    update_coroutines(&mut coroutines, &mut world).unwrap();
    assert!(coroutines.is_empty());
    assert!(events(&world).is_empty());
}

#[test]
fn a_failing_stack_stops_the_pass_and_loses_nothing() {
    let mut world = new_world();
    let mut coroutines = Coroutines::new();
    Coroutine::new(stop_noting("done")).apply(&mut coroutines, &mut world);
    Coroutine::new((stop_noting("early"), stop_noting("late"))).apply(&mut coroutines, &mut world);
    let broken = handle(9000);
    coroutines.push(stack_of(&[handle(1), broken]));
    Coroutine::new(stop_noting("behind")).apply(&mut coroutines, &mut world);
    let behind = coroutines.get(3).unwrap().handles();

    let error = update_coroutines(&mut coroutines, &mut world).unwrap_err();
    assert_eq!(error.step, broken);
    // The first stack ran and left, the second ran, the broken one and the
    // one behind it are as they were.
    assert_eq!(events(&world), vec!["done", "early"]);
    assert_eq!(lengths(&coroutines), vec![1, 2, 1]);
    assert_eq!(coroutines.get(1).unwrap().handles(), vec![handle(1), broken]);
    assert_eq!(coroutines.get(2).unwrap().handles(), behind);
}

#[test]
fn four_steps_of_three_ticks_take_twelve_ticks() {
    let mut world = new_world();
    let mut coroutines = Coroutines::new();
    Coroutine::new((
        noting_for("step", 3),
        noting_for("step", 3),
        noting_for("step", 3),
        noting_for("step", 3),
    ))
    .apply(&mut coroutines, &mut world);
    for _ in 0..11 {
        update_coroutines(&mut coroutines, &mut world).unwrap();
    }
    assert_eq!(coroutines.len(), 1);
    assert_eq!(lengths(&coroutines), vec![1]);
    update_coroutines(&mut coroutines, &mut world).unwrap();
    assert!(coroutines.is_empty());
    assert_eq!(events(&world), vec!["step"; 12]);
}

#[test]
fn two_stacks_launched_together_both_run_on_the_first_tick() {
    let mut world = new_world();
    let mut coroutines = Coroutines::new();
    Coroutine::new(stop_noting("0")).apply(&mut coroutines, &mut world);
    Coroutine::new(stop_noting("1")).apply(&mut coroutines, &mut world);
    update_coroutines(&mut coroutines, &mut world).unwrap();
    assert!(coroutines.is_empty());
    let mut seen = events(&world);
    seen.sort();
    assert_eq!(seen, vec!["0", "1"]);
}

#[test]
fn a_wait_child_runs_before_the_step_listed_after_it() {
    let mut world = new_world();
    let mut coroutines = Coroutines::new();
    let parent = step(|| {
        let mut wait = Wait::new(1_000);
        CoResult::break_()
            .with_subroutines((step(move || wait.tick(1_000)), stop_noting("printed")))
    });
    Coroutine::new(parent).apply(&mut coroutines, &mut world);

    update_coroutines(&mut coroutines, &mut world).unwrap();
    assert_eq!(lengths(&coroutines), vec![2]);
    update_coroutines(&mut coroutines, &mut world).unwrap();
    assert_eq!(lengths(&coroutines), vec![1]);
    assert!(events(&world).is_empty());
    update_coroutines(&mut coroutines, &mut world).unwrap();
    assert_eq!(events(&world), vec!["printed"]);
    assert!(coroutines.is_empty());
}

#[test]
fn a_coroutine_launched_by_a_step_first_runs_on_the_next_tick() {
    let mut world = new_world();
    Launch(Coroutine::new(step(|mut events: ResMut<TestEvents>, mut commands: Commands| {
        events.0.push("A");
        commands.add(Launch(Coroutine::new(stop_noting("B"))));
        CoResult::break_()
    })))
    .apply(&mut world);
    assert_eq!(world.resource::<Registry>().0.len(), 1);

    run_pass(&mut world);
    assert_eq!(events(&world), vec!["A"]);
    assert_eq!(world.resource::<Registry>().0.len(), 1);

    run_pass(&mut world);
    assert_eq!(events(&world), vec!["A", "B"]);
    assert!(world.resource::<Registry>().0.is_empty());
}

#[test]
fn a_step_that_launches_itself_anew_runs_once_per_tick() {
    fn relaunching(mut events: ResMut<TestEvents>, mut commands: Commands) -> CoResult {
        events.0.push("again");
        commands.add(Launch(Coroutine::new(step(relaunching))));
        CoResult::break_()
    }
    let mut world = new_world();
    Launch(Coroutine::new(step(relaunching))).apply(&mut world);
    for tick in 1..=4 {
        run_pass(&mut world);
        assert_eq!(events(&world).len(), tick);
        assert_eq!(world.resource::<Registry>().0.len(), 1);
    }
}

#[test]
fn coroutine_in_coroutine() {
    let mut app = App::new();
    app.init_resource::<Registry>();
    app.add_systems(Update, run_pass);

    app.init_resource::<TestEvents>();

    app.add_systems(Startup, |mut commands: Commands| {
        commands.add(Launch(Coroutine::new(step(
            |mut events: ResMut<TestEvents>, mut commands: Commands| {
                events.0.push("COROUTINE_1");
                commands.add(Launch(Coroutine::new(step(|mut events: ResMut<TestEvents>| {
                    events.0.push("COROUTINE_2");
                    CoResult::break_()
                }))));
                CoResult::break_()
            },
        ))));
    });

    app.update();
    app.update();

    assert_eq!(
        app.world().resource::<TestEvents>(),
        &TestEvents(vec!["COROUTINE_1", "COROUTINE_2"])
    );
}

#[test]
fn after_resume_drops_an_empty_stack_and_keeps_a_live_one() {
    let mut coroutines = Coroutines::new();
    coroutines.push(stack_of(&[handle(1)]));
    coroutines.push(stack_of(&[]));
    coroutines.push(stack_of(&[handle(2)]));

    assert_eq!(coroutines.after_resume(0, Ok(())).unwrap(), 1);
    assert_eq!(lengths(&coroutines), vec![1, 0, 1]);
    assert_eq!(coroutines.after_resume(1, Ok(())).unwrap(), 1);
    assert_eq!(lengths(&coroutines), vec![1, 1]);
    assert_eq!(coroutines.get(1).unwrap().handles(), vec![handle(2)]);
    assert_eq!(coroutines.after_resume(1, Ok(())).unwrap(), 2);
    assert_eq!(lengths(&coroutines), vec![1, 1]);
}

#[test]
fn after_resume_hands_a_refusal_on_and_changes_nothing() {
    let mut world = new_world();
    let mut coroutines = Coroutines::new();
    coroutines.push(stack_of(&[]));
    coroutines.push(stack_of(&[handle(9)]));
    let source = world.run_system(handle(9)).err().unwrap();
    let refusal = CoroutineError { step: handle(9), source };
    let error = coroutines.after_resume(0, Err(refusal)).unwrap_err();
    assert_eq!(error.step, handle(9));
    assert_eq!(lengths(&coroutines), vec![0, 1]);
}

#[test]
fn apply_stacks_the_steps_last_to_first() {
    let mut world = new_world();
    let mut coroutines = Coroutines::new();
    Coroutine::new((stop_noting("one"), (stop_noting("two"), stop_noting("three"))))
        .apply(&mut coroutines, &mut world);
    Coroutine::new((stop_noting("one"), stop_noting("two"), stop_noting("three")))
        .apply(&mut coroutines, &mut world);
    for index in 0..2 {
        let held = coroutines.get(index).unwrap().handles();
        assert_eq!(held.len(), 3);
        // Top to bottom the handles belong to the steps as written.
        world.run_system(held[2]).unwrap();
        world.run_system(held[1]).unwrap();
        world.run_system(held[0]).unwrap();
    }
    assert_eq!(events(&world), vec!["one", "two", "three", "one", "two", "three"]);
}

#[test]
fn pop_takes_out_the_last_stack() {
    let mut coroutines = Coroutines::new();
    assert!(coroutines.pop().is_none());
    coroutines.push(stack_of(&[handle(1)]));
    coroutines.push(stack_of(&[handle(2), handle(3)]));
    assert_eq!(coroutines.pop().unwrap().handles(), vec![handle(2), handle(3)]);
    assert_eq!(lengths(&coroutines), vec![1]);
    assert_eq!(coroutines.pop().unwrap().handles(), vec![handle(1)]);
    assert!(coroutines.pop().is_none());
    assert!(coroutines.is_empty());
}

#[test]
fn unfinished_coroutines_can_be_given_back_to_the_world() {
    let mut world = new_world();
    let mut coroutines = Coroutines::new();
    Coroutine::new((noting_for("a", 5), stop_noting("b"))).apply(&mut coroutines, &mut world);
    Coroutine::new(noting_for("c", 5)).apply(&mut coroutines, &mut world);
    update_coroutines(&mut coroutines, &mut world).unwrap();
    let mut handles = Vec::new();
    while let Some(mut stack) = coroutines.pop() {
        handles.extend(stack.handles());
        assert!(stack.discard(&mut world).is_empty());
        assert!(stack.is_empty());
    }
    assert_eq!(handles.len(), 3);
    for handle in handles {
        assert!(world.run_system(handle).is_err());
    }
    assert_eq!(events(&world), vec!["a", "c"]);
}
