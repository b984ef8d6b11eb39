use std::time::Duration;

use codex_loop::termination::{
    signal_target, termination_grace, Signal, Termination, TerminationStep,
};

/// The steps that are taken to end a group that is gone within the time of grace, or not,
/// each with the place where a signal would go.
fn steps(id: Option<u32>, gone: bool) -> Vec<(TerminationStep, Option<i32>)> {
    let mut termination = Termination::new(id);
    let mut steps = vec![(termination.step(), termination.target())];
    while termination.step() != TerminationStep::Stopped {
        termination.advance(gone);
        steps.push((termination.step(), termination.target()));
    }
    steps
}

#[test]
fn a_group_that_is_gone_in_time_is_not_killed() {
    let target = Some(-4711);

    assert_eq!(
        steps(Some(4711), true),
        vec![
            (TerminationStep::Send(Signal::Terminate), target),
            (TerminationStep::AwaitGrace, target),
            (TerminationStep::Stopped, target),
        ]
    );
}

#[test]
fn what_is_left_of_a_group_is_killed() {
    let target = Some(-4711);

    assert_eq!(
        steps(Some(4711), false),
        vec![
            (TerminationStep::Send(Signal::Terminate), target),
            (TerminationStep::AwaitGrace, target),
            (TerminationStep::Send(Signal::Kill), target),
            (TerminationStep::AwaitEnd, target),
            (TerminationStep::Stopped, target),
        ]
    );
}

#[test]
fn only_the_time_of_grace_can_spare_a_group() {
    let mut termination = Termination::new(Some(12));

    // That the group seems to be gone before the time of grace has begun counts for nothing.
    termination.advance(true);
    assert_eq!(termination.step(), TerminationStep::AwaitGrace);
    termination.advance(false);
    assert_eq!(termination.step(), TerminationStep::Send(Signal::Kill));
    termination.advance(true);
    assert_eq!(termination.step(), TerminationStep::AwaitEnd);
    termination.advance(false);
    assert_eq!(termination.step(), TerminationStep::Stopped);
    termination.advance(false);
    assert_eq!(termination.step(), TerminationStep::Stopped);
}

#[test]
fn the_time_of_grace_is_two_seconds() {
    assert_eq!(termination_grace(), Duration::from_secs(2));
}

#[test]
fn signals_go_to_the_process_group() {
    assert_eq!(signal_target(Some(4711)), Some(-4711));
    assert_eq!(signal_target(Some(i32::MAX as u32)), Some(-i32::MAX));
    assert_eq!(signal_target(Some(i32::MAX as u32 + 1)), None);
    assert_eq!(signal_target(Some(u32::MAX)), None);
    assert_eq!(signal_target(None), None);
}
