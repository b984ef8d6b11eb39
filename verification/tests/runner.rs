use std::path::PathBuf;
use std::time::Duration;

use codex_loop::output::{Channel, Output};
use codex_loop::run::{RunAction, RunEvent, RunState};
use codex_loop::runner::{
    classify_exit, Argument, ExitStatus, RunResult, RunStatus, Runner, WaitResult,
};
use codex_loop::stream::{consume_line, StreamResult};

const SUCCESS: ExitStatus = ExitStatus {
    success: true,
    code: Some(0),
};

fn stream(completed: bool, failure: Option<&str>) -> StreamResult {
    StreamResult {
        completed,
        failure: failure.map(str::to_string),
    }
}

const MOMENT: Duration = Duration::from_millis(5);

/// A run whose process has just been started.
fn started(runner: &Runner) -> RunState<'_> {
    let mut state = RunState::new(runner);
    assert!(matches!(state.action(), RunAction::Poll));
    state.step(RunEvent::Polled { cancelled: false }, MOMENT);
    assert!(matches!(state.action(), RunAction::Spawn));
    state.step(RunEvent::Spawned, MOMENT);
    assert!(matches!(state.action(), RunAction::Wait(_)));
    state
}

fn result(state: RunState<'_>) -> RunResult {
    match state.into_action() {
        RunAction::Return(result) => result,
        _ => panic!("the run is not over"),
    }
}

/// Runs a process whose wait ends with the given event.
fn drive(runner: &Runner, wait_end: RunEvent, stream: StreamResult) -> (RunResult, bool) {
    let mut state = started(runner);
    state.step(wait_end, MOMENT);
    let terminated = matches!(state.action(), RunAction::Terminate);
    if terminated {
        state.step(RunEvent::Terminated, MOMENT);
        assert!(matches!(state.action(), RunAction::Finish(_)));
    } else {
        assert!(matches!(state.action(), RunAction::Drain(_)));
    }
    state.step(RunEvent::Drained(stream), MOMENT);
    let result = result(state);
    assert_eq!(result.duration, MOMENT);
    (result, terminated)
}

#[test]
fn terminal_failure_event_overrides_a_zero_exit_status() {
    let runner = Runner::new(PathBuf::from("fake-codex"));
    let mut stream = StreamResult::default();
    consume_line(
        r#"{"type":"turn.failed","error":{"message":"agent failed"}}"#,
        &mut stream,
        false,
    );

    let (result, _) = drive(&runner, RunEvent::Exited(SUCCESS), stream);

    assert_eq!(result.status, RunStatus::Failed);
    assert_eq!(result.detail.as_deref(), Some("agent failed"));
}

#[test]
fn a_completion_event_completes_a_run() {
    let runner = Runner::new(PathBuf::from("fake-codex"));
    let mut stream = StreamResult::default();
    for line in [r#"{"type":"thread.started"}"#, "noise", r#"{"type":"turn.completed"}"#] {
        consume_line(line, &mut stream, false);
    }

    let (result, _) = drive(&runner, RunEvent::Exited(SUCCESS), stream);

    assert_eq!(result.status, RunStatus::Completed);
    assert_eq!(result.detail, None);
}

#[test]
fn a_run_that_takes_too_long_is_terminated() {
    let runner =
        Runner::new(PathBuf::from("fake-codex")).timeout(Some(Duration::from_millis(30)));

    let (result, terminated) = drive(&runner, RunEvent::TimedOut, StreamResult::default());

    assert!(terminated);
    assert_eq!(result.status, RunStatus::TimedOut);
    assert_eq!(result.detail.as_deref(), Some("exceeded 30ms"));
}

#[test]
fn a_cancelled_run_is_terminated() {
    let runner = Runner::new(PathBuf::from("fake-codex"));

    let (result, terminated) = drive(&runner, RunEvent::Cancelled, stream(true, Some("late")));

    assert!(terminated);
    assert_eq!(result.status, RunStatus::Cancelled);
    assert_eq!(result.detail, None);
}

#[test]
fn a_run_that_exits_is_not_terminated() {
    let runner = Runner::new(PathBuf::from("fake-codex"));

    let (result, terminated) = drive(&runner, RunEvent::Exited(SUCCESS), stream(true, None));

    assert!(!terminated);
    assert_eq!(result.status, RunStatus::Completed);
    assert_eq!(result.detail, None);
}

#[test]
fn a_failed_wait_is_a_failure() {
    let runner = Runner::new(PathBuf::from("fake-codex"));

    let (result, terminated) = drive(
        &runner,
        RunEvent::WaitFailed("no child".to_string()),
        stream(true, None),
    );

    assert!(!terminated);
    assert_eq!(result.status, RunStatus::Failed);
    assert_eq!(
        result.detail.as_deref(),
        Some("could not wait for Codex: no child")
    );
}

#[test]
fn a_run_cancelled_at_once_starts_nothing() {
    let runner = Runner::new(PathBuf::from("fake-codex")).verbose(true);
    let mut state = RunState::new(&runner);

    let output = state.step(RunEvent::Polled { cancelled: true }, Duration::ZERO);

    assert_eq!(output, None);
    let result = result(state);
    assert_eq!(result.status, RunStatus::Cancelled);
    assert_eq!(result.duration, Duration::ZERO);
    assert_eq!(result.detail, None);
}

#[test]
fn a_process_that_cannot_start_is_a_failure() {
    let runner = Runner::new(PathBuf::from("no/such/codex")).verbose(true);
    let mut state = RunState::new(&runner);

    let output = state.step(RunEvent::Polled { cancelled: false }, Duration::ZERO);
    assert_eq!(
        output,
        Some(Output {
            channel: Channel::Stderr,
            text: "[codex-loop] starting no/such/codex exec --json\n".to_string(),
        })
    );
    state.step(
        RunEvent::SpawnFailed("not found".to_string()),
        Duration::from_secs(1),
    );

    let result = result(state);
    assert_eq!(result.status, RunStatus::Failed);
    assert_eq!(result.duration, Duration::from_secs(1));
    assert_eq!(
        result.detail.as_deref(),
        Some("could not start no/such/codex: not found")
    );
}

#[test]
fn the_wait_is_limited_by_the_timeout() {
    let limit = Some(Duration::from_secs(9));
    let runner = Runner::default().timeout(limit);
    let state = started(&runner);

    match state.action() {
        RunAction::Wait(time) => assert_eq!(*time, limit),
        _ => panic!("the run does not wait"),
    }
}

/// How long the output may be read, if it is to be read.
fn reading_time(state: &RunState<'_>) -> Option<Duration> {
    match state.action() {
        RunAction::Drain(limit) | RunAction::Finish(limit) => *limit,
        _ => panic!("the output is not read"),
    }
}

#[test]
fn the_output_is_read_for_the_rest_of_the_timeout() {
    let seconds = Duration::from_secs;
    let limited = Runner::default().timeout(Some(seconds(9)));
    let unlimited = Runner::default();

    for (runner, elapsed, time) in [
        (&limited, seconds(4), Some(seconds(5))),
        (&limited, seconds(9), Some(Duration::ZERO)),
        (&limited, seconds(10), Some(Duration::ZERO)),
        (&unlimited, seconds(4), None),
    ] {
        let mut state = started(runner);
        state.step(RunEvent::Exited(SUCCESS), elapsed);
        assert!(matches!(state.action(), RunAction::Drain(_)));
        assert_eq!(reading_time(&state), time);
    }
}

#[test]
fn the_output_of_a_terminated_group_is_read_for_the_rest_of_the_grace() {
    let seconds = Duration::from_secs;
    let limited = Runner::default().timeout(Some(seconds(9)));
    let unlimited = Runner::default();

    for (runner, elapsed, time) in [
        (&limited, seconds(4), Some(seconds(5))),
        (&limited, seconds(8), Some(seconds(2))),
        (&limited, seconds(9), Some(seconds(2))),
        (&limited, seconds(10), Some(seconds(1))),
        (&limited, seconds(12), Some(Duration::ZERO)),
        (&unlimited, seconds(4), None),
    ] {
        let mut state = started(runner);
        state.step(RunEvent::Cancelled, MOMENT);
        state.step(RunEvent::Terminated, elapsed);
        assert!(matches!(state.action(), RunAction::Finish(_)));
        assert_eq!(reading_time(&state), time);
    }
}

#[test]
fn a_run_does_not_outlast_its_timeout_for_its_output() {
    let seconds = Duration::from_secs;
    let runner = Runner::default().timeout(Some(seconds(9)));

    // A child of the process keeps the output open, and ends when it is told to.
    let mut state = started(&runner);
    state.step(RunEvent::Exited(SUCCESS), seconds(1));
    assert_eq!(reading_time(&state), Some(seconds(8)));
    state.step(RunEvent::NotDrained, seconds(9));
    assert!(matches!(state.action(), RunAction::Terminate));
    state.step(RunEvent::Terminated, seconds(10));
    assert_eq!(reading_time(&state), Some(seconds(1)));
    state.step(RunEvent::Drained(stream(true, None)), seconds(10));
    let over = result(state);
    assert_eq!(over.status, RunStatus::TimedOut);
    assert_eq!(over.duration, seconds(10));
    assert_eq!(over.detail.as_deref(), Some("exceeded 9s"));

    // A process outside the group keeps the output open.
    let mut state = started(&runner);
    state.step(RunEvent::Exited(SUCCESS), seconds(1));
    state.step(RunEvent::NotDrained, seconds(9));
    state.step(RunEvent::Terminated, seconds(10));
    state.step(RunEvent::NotDrained, seconds(11));
    let over = result(state);
    assert_eq!(over.status, RunStatus::TimedOut);
    assert_eq!(over.duration, seconds(11));
    assert_eq!(over.detail.as_deref(), Some("exceeded 9s"));
}

#[test]
fn a_run_asks_for_one_start() {
    let runner = Runner::default().timeout(Some(Duration::from_secs(9)));
    let mut state = RunState::new(&runner);
    let mut starts = 0;
    for event in [
        RunEvent::Polled { cancelled: false },
        RunEvent::Spawned,
        RunEvent::Exited(SUCCESS),
        RunEvent::NotDrained,
        RunEvent::Terminated,
        RunEvent::NotDrained,
    ] {
        state.step(event, MOMENT);
        if matches!(state.action(), RunAction::Spawn) {
            starts += 1;
        }
    }

    assert_eq!(starts, 1);
    assert_eq!(result(state).status, RunStatus::TimedOut);
}

#[test]
fn a_cancelled_run_stays_cancelled_if_its_output_stays_open() {
    let seconds = Duration::from_secs;
    let runner = Runner::default().timeout(Some(seconds(9)));
    let mut state = started(&runner);
    state.step(RunEvent::Cancelled, seconds(1));
    state.step(RunEvent::Terminated, seconds(3));
    state.step(RunEvent::NotDrained, seconds(9));

    let over = result(state);
    assert_eq!(over.status, RunStatus::Cancelled);
    assert_eq!(over.detail, None);
}

#[test]
fn a_group_that_keeps_the_output_open_is_terminated_on_cancellation() {
    let runner = Runner::default();
    let mut state = started(&runner);
    state.step(RunEvent::Exited(SUCCESS), MOMENT);
    state.step(RunEvent::Cancelled, MOMENT);
    assert!(matches!(state.action(), RunAction::Terminate));
    state.step(RunEvent::Terminated, MOMENT);
    state.step(RunEvent::Drained(stream(true, None)), MOMENT);

    let over = result(state);
    assert_eq!(over.status, RunStatus::Completed);
    assert_eq!(over.detail, None);
}

#[test]
fn classifies_exits() {
    let elapsed = Duration::from_secs(3);
    let detail = |status: ExitStatus, stream: StreamResult| {
        let result = classify_exit(status, stream, elapsed);
        assert_eq!(result.duration, elapsed);
        (result.status, result.detail)
    };
    let failed = |text: &str| (RunStatus::Failed, Some(text.to_string()));

    assert_eq!(detail(SUCCESS, stream(true, None)), (RunStatus::Completed, None));
    assert_eq!(
        detail(SUCCESS, stream(false, None)),
        failed("Codex exited without a terminal completion event")
    );
    assert_eq!(detail(SUCCESS, stream(true, Some("why"))), failed("why"));
    for (code, text) in [
        (1, "Codex exited with status 1"),
        (107, "Codex exited with status 107"),
        (-1, "Codex exited with status -1"),
        (i32::MIN, "Codex exited with status -2147483648"),
    ] {
        let status = ExitStatus {
            success: false,
            code: Some(code),
        };
        assert_eq!(detail(status, stream(true, Some("why"))), failed(text));
    }
    let signalled = ExitStatus {
        success: false,
        code: None,
    };
    assert_eq!(
        detail(signalled, stream(true, None)),
        failed("Codex was terminated by a signal")
    );
}

#[test]
fn concludes_runs() {
    let runner = Runner::default().timeout(Some(Duration::from_secs(75)));
    let elapsed = Duration::from_secs(76);

    let result = runner.conclude(WaitResult::TimedOut, stream(true, None), elapsed);
    assert_eq!(result.status, RunStatus::TimedOut);
    assert_eq!(result.detail.as_deref(), Some("exceeded 1m 15s"));

    let result = runner.conclude(WaitResult::Exited(Ok(SUCCESS)), stream(true, None), elapsed);
    assert_eq!(result.status, RunStatus::Completed);
}

#[test]
fn only_failures_and_time_outs_count_as_failed() {
    assert!(!RunStatus::Completed.failed());
    assert!(RunStatus::Failed.failed());
    assert!(RunStatus::TimedOut.failed());
    assert!(!RunStatus::Cancelled.failed());
}

#[test]
fn builds_command_lines() {
    let plain = Runner::new(PathBuf::from("/opt/codex"));
    let command = plain.command("--help");
    assert_eq!(command.program, &PathBuf::from("/opt/codex"));
    assert_eq!(
        command.arguments,
        vec![
            Argument::Text("exec"),
            Argument::Text("--json"),
            Argument::Text("--help"),
        ]
    );

    let there = PathBuf::from("there");
    let full = plain
        .clone()
        .model(Some("m".to_string()))
        .cwd(Some(PathBuf::from("elsewhere")))
        .cwd(Some(there.clone()));
    let command = full.command("");
    assert_eq!(
        command.arguments,
        vec![
            Argument::Text("exec"),
            Argument::Text("--json"),
            Argument::Text("-C"),
            Argument::Path(&there),
            Argument::Text("--model"),
            Argument::Text("m"),
            Argument::Text(""),
        ]
    );
}
