use std::time::{Duration, Instant};

use codex_loop::output::{Channel, Output};
use codex_loop::run_loop::{
    report_problem, report_result, LoopAction, LoopEvent, LoopExit, LoopOptions, LoopState,
};
use codex_loop::runner::{RunResult, RunStatus};

fn options(max_runs: Option<u64>, stop_on_error: bool) -> LoopOptions {
    LoopOptions {
        interval: Duration::from_millis(1),
        max_runs,
        stop_on_error,
        verbose: false,
    }
}

fn stderr(text: &str) -> Output {
    Output {
        channel: Channel::Stderr,
        text: text.to_string(),
    }
}

/// Runs a loop whose sleep of the given number is interrupted.
fn drive(
    options: LoopOptions,
    interrupted_sleep: Option<u64>,
    mut run: impl FnMut(u64) -> RunResult,
) -> (LoopExit, Vec<Duration>, Vec<String>) {
    let mut state = LoopState::new(options);
    let mut sleeps = Vec::new();
    let mut shown = Vec::new();
    loop {
        let event = match state.action() {
            LoopAction::Poll => LoopEvent::Polled { cancelled: false },
            LoopAction::Run(number) => {
                assert_eq!(number, state.run_number());
                LoopEvent::Ran(run(number))
            }
            LoopAction::Sleep(time) => {
                sleeps.push(time);
                LoopEvent::Slept {
                    interrupted: interrupted_sleep == Some(sleeps.len() as u64),
                }
            }
            LoopAction::Exit(exit) => return (exit, sleeps, shown),
        };
        for output in state.step(&event) {
            assert_eq!(output.channel, Channel::Stderr);
            shown.push(output.text);
        }
    }
}

#[test]
fn stops_at_max_runs_without_an_extra_sleep() {
    let mut calls = 0_u64;

    let (exit, sleeps, _) = drive(options(Some(3), false), None, |_| {
        calls += 1;
        RunResult::new(RunStatus::Completed, Duration::ZERO)
    });

    assert_eq!(exit, LoopExit::Finished);
    assert_eq!(calls, 3);
    assert_eq!(sleeps, vec![Duration::from_millis(1); 2]);
}

#[test]
fn stop_on_error_prevents_another_run() {
    let mut calls = 0_u64;

    let (exit, _, _) = drive(options(Some(4), true), None, |iteration| {
        calls += 1;
        let status = if iteration == 2 {
            RunStatus::Failed
        } else {
            RunStatus::Completed
        };
        RunResult::new(status, Duration::ZERO)
    });

    assert_eq!(exit, LoopExit::Finished);
    assert_eq!(calls, 2);
}

#[test]
fn stop_on_error_heeds_time_outs() {
    let mut calls = 0_u64;

    let (exit, _, _) = drive(options(None, true), None, |_| {
        calls += 1;
        RunResult::new(RunStatus::TimedOut, Duration::ZERO)
    });

    assert_eq!(exit, LoopExit::Finished);
    assert_eq!(calls, 1);
}

#[test]
fn failure_continues_by_default() {
    let mut calls = 0_u64;

    drive(options(Some(3), false), None, |_| {
        calls += 1;
        RunResult::new(RunStatus::Failed, Duration::ZERO)
    });

    assert_eq!(calls, 3);
}

#[test]
fn cancellation_interrupts_interval_sleep() {
    let mut calls = 0_u64;
    let started = Instant::now();

    let (exit, sleeps, _) = drive(
        LoopOptions {
            interval: Duration::from_secs(30),
            max_runs: None,
            stop_on_error: false,
            verbose: false,
        },
        Some(1),
        |_| {
            calls += 1;
            RunResult::new(RunStatus::Completed, Duration::ZERO)
        },
    );

    assert_eq!(exit, LoopExit::Cancelled);
    assert_eq!(calls, 1);
    assert_eq!(sleeps, vec![Duration::from_secs(30)]);
    assert!(started.elapsed() < Duration::from_secs(1));
}

#[test]
fn goes_on_without_a_maximum() {
    let mut calls = 0_u64;

    let (exit, sleeps, _) = drive(options(None, false), Some(50), |iteration| {
        calls += 1;
        assert_eq!(iteration, calls);
        RunResult::new(RunStatus::Failed, Duration::ZERO)
    });

    assert_eq!(exit, LoopExit::Cancelled);
    assert_eq!(calls, 50);
    assert_eq!(sleeps, vec![Duration::from_millis(1); 50]);
}

#[test]
fn a_cancelled_run_cancels_the_loop() {
    let (exit, sleeps, shown) = drive(options(Some(1), true), None, |_| {
        RunResult::new(RunStatus::Cancelled, Duration::ZERO)
    });

    assert_eq!(exit, LoopExit::Cancelled);
    assert!(sleeps.is_empty());
    assert_eq!(shown, vec!["[codex-loop] iteration 1\n".to_string()]);
}

#[test]
fn a_cancelled_loop_starts_no_run() {
    let mut state = LoopState::new(options(None, false));

    assert!(state.step(&LoopEvent::Polled { cancelled: true }).is_empty());

    assert_eq!(state.action(), LoopAction::Exit(LoopExit::Cancelled));
    assert_eq!(state.run_number(), 0);
}

#[test]
fn shows_the_course_of_the_loop() {
    let talkative = LoopOptions {
        interval: Duration::from_secs(90),
        max_runs: Some(12),
        stop_on_error: false,
        verbose: true,
    };

    let (_, _, shown) = drive(talkative, None, |_| {
        RunResult::new(RunStatus::Completed, Duration::from_millis(1500))
    });

    assert_eq!(shown.len(), 36);
    assert_eq!(shown[0], "[codex-loop] iteration 1\n");
    assert_eq!(shown[1], "[codex-loop] completed in 1s 500ms\n");
    assert_eq!(shown[2], "[codex-loop] next run in 1m 30s\n");
    assert_eq!(shown[27], "[codex-loop] iteration 10\n");
    assert_eq!(shown[35], "[codex-loop] reached maximum of 12 runs\n");
}

#[test]
fn says_less_unless_asked_to() {
    for verbose in [false, true] {
        let mut options = options(Some(1), false);
        options.verbose = verbose;
        let (_, _, shown) = drive(options, None, |_| {
            RunResult::new(RunStatus::Completed, Duration::ZERO)
        });
        assert_eq!(shown.len(), if verbose { 3 } else { 2 });
        assert_eq!(shown[1], "[codex-loop] completed in 0s\n");
    }
    for verbose in [false, true] {
        let mut options = options(Some(1), true);
        options.verbose = verbose;
        let (_, _, shown) = drive(options, None, |_| {
            RunResult::failed(Duration::from_secs(2), "no luck".to_string())
        });
        assert_eq!(shown[1], "[codex-loop] failed after 2s: no luck\n");
        if verbose {
            assert_eq!(shown[2], "[codex-loop] stopping after failed iteration\n");
        } else {
            assert_eq!(shown.len(), 2);
        }
    }
}

#[test]
fn reports_results() {
    let result = |status| RunResult::new(status, Duration::from_secs(61));

    assert_eq!(
        report_result(&result(RunStatus::Completed)),
        Some(stderr("[codex-loop] completed in 1m 1s\n"))
    );
    assert_eq!(
        report_result(&result(RunStatus::Failed)),
        Some(stderr("[codex-loop] failed after 1m 1s\n"))
    );
    assert_eq!(
        report_result(&result(RunStatus::TimedOut)),
        Some(stderr("[codex-loop] timed out after 1m 1s\n"))
    );
    assert_eq!(report_result(&result(RunStatus::Cancelled)), None);
    assert_eq!(
        report_problem("timed out", "3s", &Some("exceeded 2s".to_string())),
        stderr("[codex-loop] timed out after 3s: exceeded 2s\n")
    );
}

#[test]
fn says_farewell_only_when_cancelled() {
    assert_eq!(LoopExit::Finished.farewell(), None);
    assert_eq!(
        LoopExit::Cancelled.farewell(),
        Some(stderr("[codex-loop] stopping\n"))
    );
}

#[test]
fn saying_more_only_adds_at_the_end() {
    let quiet = options(Some(2), false);
    let verbose = LoopOptions {
        verbose: true,
        ..quiet
    };
    let run = |_: u64| RunResult::new(RunStatus::Completed, Duration::from_secs(1));

    let (quiet_exit, quiet_sleeps, less) = drive(quiet, None, run);
    let (verbose_exit, verbose_sleeps, more) = drive(verbose, None, run);

    assert_eq!(quiet_exit, verbose_exit);
    assert_eq!(quiet_sleeps, verbose_sleeps);
    assert_eq!(less.len() + 1, more.len());
    assert_eq!(less[..], more[..less.len()]);
}
