use bevy::ecs::system::{IntoSystem, ResMut, Resource};
use bevy::ecs::world::World;
use bevy_coroutine::stack::reversed;
use bevy_coroutine::{
    update_coroutines, BoxedCoroutine, CoResult, Coroutine, Coroutines, IntoCoroutines,
};

struct Trace(Vec<u32>);

impl Resource for Trace {}

fn mark(label: u32) -> BoxedCoroutine {
    BoxedCoroutine(Box::new(IntoSystem::into_system(move |mut trace: ResMut<Trace>| {
        trace.0.push(label);
        CoResult::break_()
    })))
}

/// Launches `coroutine` alone and runs it to its end; returns the labels in
/// the order in which the steps ran, and the number of ticks that took.
fn run_to_end(coroutine: Coroutine) -> (Vec<u32>, usize) {
    let mut world = World::new();
    world.insert_resource(Trace(Vec::new()));
    let mut coroutines = Coroutines::new();
    coroutine.apply(&mut coroutines, &mut world);
    let mut ticks = 0;
    while !coroutines.is_empty() {
        update_coroutines(&mut coroutines, &mut world).unwrap();
        ticks += 1;
        assert!(ticks <= 100);
    }
    (world.resource::<Trace>().0.clone(), ticks)
}

#[test]
fn reversed_turns_a_list_around() {
    assert_eq!(reversed(vec![1, 2, 3]), vec![3, 2, 1]);
    assert_eq!(reversed(vec![7]), vec![7]);
    assert_eq!(reversed(Vec::<u8>::new()), Vec::<u8>::new());
}

#[test]
fn a_single_step_is_a_sequence_of_one() {
    assert_eq!(mark(1).into_coroutines().len(), 1);
    assert_eq!(run_to_end(Coroutine::new(mark(1))), (vec![1], 1));
}

#[test]
fn a_tuple_runs_in_written_order() {
    assert_eq!(run_to_end(Coroutine::new((mark(1), mark(2), mark(3)))), (vec![1, 2, 3], 3));
}

#[test]
fn nested_sequences_flatten_in_order() {
    let nested = run_to_end(Coroutine::new((mark(1), (mark(2), mark(3)))));
    assert_eq!(nested, (vec![1, 2, 3], 3));

    let mut separate = Vec::new();
    for label in [1, 2, 3] {
        let (labels, ticks) = run_to_end(Coroutine::new(mark(label)));
        assert_eq!(ticks, 1);
        separate.extend(labels);
    }
    assert_eq!(nested.0, separate);
}

#[test]
fn deeper_nesting_is_depth_first() {
    let coroutine = Coroutine::new((mark(1), (mark(2), mark(3)), mark(4)));
    assert_eq!(run_to_end(coroutine), (vec![1, 2, 3, 4], 4));

    let coroutine = Coroutine::new((((mark(1),), mark(2)), ((mark(3), (mark(4), mark(5))),)));
    assert_eq!(run_to_end(coroutine), (vec![1, 2, 3, 4, 5], 5));
}

#[test]
fn a_list_runs_first_to_last() {
    let coroutine = Coroutine::new(vec![mark(4), mark(5), mark(6)]);
    assert_eq!(run_to_end(coroutine), (vec![4, 5, 6], 3));

    let coroutine = Coroutine::new(vec![(mark(1), mark(2)), (mark(3), mark(4))]);
    assert_eq!(run_to_end(coroutine), (vec![1, 2, 3, 4], 4));

    assert_eq!(Vec::<BoxedCoroutine>::new().into_coroutines().len(), 0);
}

#[test]
fn collect_coroutines_appends_to_what_is_there() {
    let mut collected = vec![mark(1)];
    (mark(2), mark(3)).collect_coroutines(&mut collected);
    mark(4).collect_coroutines(&mut collected);
    assert_eq!(collected.len(), 4);
    assert_eq!(run_to_end(Coroutine::new(collected)), (vec![1, 2, 3, 4], 4));
}

#[test]
fn a_tuple_of_twenty_runs_in_written_order() {
    let coroutine = Coroutine::new((
        mark(1),
        mark(2),
        mark(3),
        mark(4),
        mark(5),
        mark(6),
        mark(7),
        mark(8),
        mark(9),
        mark(10),
        mark(11),
        mark(12),
        mark(13),
        mark(14),
        mark(15),
        mark(16),
        mark(17),
        mark(18),
        mark(19),
        mark(20),
    ));
    assert_eq!(run_to_end(coroutine), ((1..=20).collect::<Vec<u32>>(), 20));
}
