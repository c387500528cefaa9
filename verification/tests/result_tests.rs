use std::ops::ControlFlow;

use bevy::ecs::system::IntoSystem;
use bevy_coroutine::{break_if, BoxedCoroutine, CoResult};

fn idle_step() -> BoxedCoroutine {
    BoxedCoroutine(Box::new(IntoSystem::into_system(|| CoResult::break_())))
}

fn named_step(name: &'static str) -> BoxedCoroutine {
    BoxedCoroutine(Box::new(IntoSystem::into_system(move || {
        assert!(!name.is_empty());
        CoResult::break_()
    })))
}

#[test]
fn continue_has_no_children() {
    let result = CoResult::continue_();
    assert_eq!(result.control_flow, ControlFlow::Continue(()));
    assert!(result.subroutines.is_empty());
    assert!(!result.is_break());
}

#[test]
fn break_has_no_children() {
    let result = CoResult::break_();
    assert_eq!(result.control_flow, ControlFlow::Break(()));
    assert!(result.subroutines.is_empty());
    assert!(result.is_break());
}

#[test]
fn break_if_follows_its_argument() {
    assert_eq!(break_if(true).control_flow, ControlFlow::Break(()));
    assert_eq!(break_if(false).control_flow, ControlFlow::Continue(()));
    assert!(break_if(true).subroutines.is_empty());
    assert!(break_if(false).subroutines.is_empty());
}

#[test]
fn with_boxed_subroutines_keeps_the_directive() {
    let stopping = CoResult::break_().with_boxed_subroutines(vec![idle_step(), idle_step()]);
    assert_eq!(stopping.control_flow, ControlFlow::Break(()));
    assert_eq!(stopping.subroutines.len(), 2);

    let continuing = CoResult::continue_().with_boxed_subroutines(vec![idle_step()]);
    assert_eq!(continuing.control_flow, ControlFlow::Continue(()));
    assert_eq!(continuing.subroutines.len(), 1);
}

#[test]
fn with_boxed_subroutines_replaces_the_children() {
    let first = CoResult::continue_().with_boxed_subroutines(vec![idle_step(), idle_step()]);
    let second = first.with_boxed_subroutines(vec![idle_step()]);
    assert_eq!(first.subroutines.len(), 2);
    assert_eq!(second.subroutines.len(), 1);
    assert_eq!(second.control_flow, ControlFlow::Continue(()));
}

#[test]
fn with_subroutines_flattens_what_it_is_given() {
    let result = CoResult::break_().with_subroutines((idle_step(), (idle_step(), idle_step())));
    assert_eq!(result.control_flow, ControlFlow::Break(()));
    assert_eq!(result.subroutines.len(), 3);
}

#[test]
fn add_boxed_subroutines_appends_in_order() {
    let mut result = CoResult::continue_();
    result.add_boxed_subroutines(vec![named_step("a")]);
    let first = result.subroutines[0].0.name();
    result.add_boxed_subroutines(vec![idle_step(), idle_step()]);
    assert_eq!(result.control_flow, ControlFlow::Continue(()));
    assert_eq!(result.subroutines.len(), 3);
    assert_eq!(result.subroutines[0].0.name(), first);
    assert_ne!(result.subroutines[1].0.name(), first);
    assert_ne!(result.subroutines[2].0.name(), first);
}

#[test]
fn add_subroutines_appends_and_keeps_the_directive() {
    let mut result = CoResult::break_();
    for _ in 0..4 {
        result.add_subroutines((idle_step(), idle_step()));
    }
    assert_eq!(result.control_flow, ControlFlow::Break(()));
    assert_eq!(result.subroutines.len(), 8);
}
