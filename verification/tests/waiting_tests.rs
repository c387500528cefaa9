use std::ops::ControlFlow;
use std::time::Duration;

use bevy::time::{Timer, TimerMode};
use bevy_coroutine::{InputAdapter, UntilMarker, Wait, WhileMarker};

#[test]
fn a_new_wait_has_nothing_elapsed() {
    let wait = Wait::new(1_500);
    assert_eq!(wait.duration(), 1_500);
    assert_eq!(wait.elapsed(), 0);
    assert!(!wait.finished());
}

#[test]
fn wait_stops_on_the_tick_that_completes_the_span() {
    let mut wait = Wait::new(1_000);
    assert_eq!(wait.tick(400).control_flow, ControlFlow::Continue(()));
    assert_eq!((wait.elapsed(), wait.finished()), (400, false));
    assert_eq!(wait.tick(599).control_flow, ControlFlow::Continue(()));
    assert_eq!((wait.elapsed(), wait.finished()), (999, false));
    let last = wait.tick(1);
    assert_eq!(last.control_flow, ControlFlow::Break(()));
    assert!(last.subroutines.is_empty());
    assert_eq!((wait.elapsed(), wait.finished()), (1_000, true));
}

#[test]
fn wait_counts_no_further_than_its_span() {
    let mut wait = Wait::new(1_000);
    assert_eq!(wait.tick(2_500).control_flow, ControlFlow::Break(()));
    assert_eq!((wait.elapsed(), wait.duration(), wait.finished()), (1_000, 1_000, true));
}

#[test]
fn a_finished_wait_stops_only_once() {
    let mut wait = Wait::new(10);
    assert_eq!(wait.tick(10).control_flow, ControlFlow::Break(()));
    assert_eq!(wait.tick(10).control_flow, ControlFlow::Continue(()));
    assert_eq!(wait.tick(0).control_flow, ControlFlow::Continue(()));
    assert_eq!((wait.elapsed(), wait.finished()), (10, true));
}

#[test]
fn a_wait_for_nothing_stops_on_its_first_tick() {
    let mut wait = Wait::new(0);
    assert!(!wait.finished());
    assert_eq!(wait.tick(0).control_flow, ControlFlow::Break(()));
    assert!(wait.finished());
}

#[test]
fn a_tick_of_no_time_changes_nothing() {
    let mut wait = Wait::new(5);
    assert_eq!(wait.tick(0).control_flow, ControlFlow::Continue(()));
    assert_eq!((wait.elapsed(), wait.finished()), (0, false));
}

#[test]
fn the_longest_tick_does_not_overflow() {
    let mut wait = Wait::new(u128::MAX);
    assert_eq!(wait.tick(u128::MAX - 1).control_flow, ControlFlow::Continue(()));
    assert_eq!(wait.elapsed(), u128::MAX - 1);
    assert_eq!(wait.tick(u128::MAX).control_flow, ControlFlow::Break(()));
    assert_eq!(wait.elapsed(), u128::MAX);
}

#[test]
fn wait_agrees_with_a_timer_that_runs_once() {
    let spans = [0u64, 1, 999, 1_000, 1_000_000_000, 2_500_000_000];
    let deltas = [0u64, 1, 250, 999, 1_000, 16_666_667, 1_000_000_000, 3_000_000_000];
    for span in spans {
        for first in deltas {
            for then in deltas {
                let mut timer = Timer::new(Duration::from_nanos(span), TimerMode::Once);
                let mut wait = Wait::new(span as u128);
                for delta in [first, then, then, first, then] {
                    let fired = timer.tick(Duration::from_nanos(delta)).just_finished();
                    let result = wait.tick(delta as u128);
                    assert_eq!(result.control_flow.is_break(), fired);
                    assert_eq!(wait.elapsed(), timer.elapsed().as_nanos());
                    assert_eq!(wait.finished(), timer.finished());
                    assert_eq!(wait.duration(), timer.duration().as_nanos());
                }
            }
        }
    }
}

#[test]
fn until_stops_once_the_condition_holds() {
    let mut until = UntilMarker;
    let held = until.adapt((), |_| true);
    assert_eq!(held.control_flow, ControlFlow::Break(()));
    assert!(held.subroutines.is_empty());
    let not_yet = until.adapt((), |_| false);
    assert_eq!(not_yet.control_flow, ControlFlow::Continue(()));
    assert!(not_yet.subroutines.is_empty());
}

#[test]
fn while_stops_once_the_condition_fails() {
    let mut during = WhileMarker;
    let holds = during.adapt((), |_| true);
    assert_eq!(holds.control_flow, ControlFlow::Continue(()));
    assert!(holds.subroutines.is_empty());
    let over = during.adapt((), |_| false);
    assert_eq!(over.control_flow, ControlFlow::Break(()));
    assert!(over.subroutines.is_empty());
}

#[test]
fn the_markers_hand_their_input_to_the_condition() {
    assert_eq!(UntilMarker.adapt(7, |input| input == 7).control_flow, ControlFlow::Break(()));
    assert_eq!(UntilMarker.adapt(8, |input| input == 7).control_flow, ControlFlow::Continue(()));
    assert_eq!(WhileMarker.adapt(7, |input| input == 7).control_flow, ControlFlow::Continue(()));
    assert_eq!(WhileMarker.adapt(8, |input| input == 7).control_flow, ControlFlow::Break(()));
}

#[test]
fn the_markers_ask_the_condition_once() {
    let mut asked = 0;
    UntilMarker.adapt((), |_| {
        asked += 1;
        false
    });
    WhileMarker.adapt((), |_| {
        asked += 1;
        true
    });
    assert_eq!(asked, 2);
}

#[test]
fn an_input_adapter_hands_out_its_input_every_time() {
    let mut adapter = InputAdapter::new(String::from("input"));
    assert_eq!(adapter.adapt((), |input: String| input.len()), 5);
    assert_eq!(adapter.adapt((), |input: String| input + "!"), "input!");
    assert_eq!(adapter.adapt((), |input: String| input), "input");
}
