//! The course of one run: what is to be done next, given what has happened.
//!
//! A [`RunState`] says by its [`RunAction`] what is to be done. Once that is done, the
//! outcome is handed back as a [`RunEvent`].

use std::time::Duration;

use vstd::prelude::*;
use vstd::string::*;

use crate::output::{maybe_written, stderr_line, Channel, Output, Written};
use crate::path::path_text;
use crate::runner::{
    failure, run_result, ExitStatus, ResultModel, RunResult, RunStatus, Runner, RunnerModel,
    WaitModel, WaitResult,
};
use crate::stream::{empty_stream, StreamModel, StreamResult};
use crate::termination::{termination_grace, TERMINATION_GRACE};
use crate::time::{formatted_duration, nanos, time_left};

verus! {

/// What a run waits for.
#[derive(Debug)]
pub enum RunAction {
    /// See whether the run has been cancelled.
    Poll,
    /// Start the process.
    Spawn,
    /// Wait until the run is cancelled, or else until the process exits, for so long at most.
    Wait(Option<Duration>),
    /// Terminate the process and the group that it leads.
    Terminate,
    /// Read what is left of the output until the run is cancelled, for so long at most.
    Drain(Option<Duration>),
    /// Read what the terminated group has left of the output, for so long at most.
    Finish(Option<Duration>),
    /// The run is over.
    Return(RunResult),
}

/// What happened to a run.
#[derive(Debug)]
pub enum RunEvent {
    /// It was seen whether the run has been cancelled.
    Polled { cancelled: bool },
    /// The process was started.
    Spawned,
    /// The process could not be started.
    SpawnFailed(String),
    /// The run was cancelled.
    Cancelled,
    /// The time limit was over during the wait.
    TimedOut,
    /// The process exited.
    Exited(ExitStatus),
    /// The wait failed.
    WaitFailed(String),
    /// The process and its group were terminated.
    Terminated,
    /// The output was read to its end.
    Drained(StreamResult),
    /// The output was not at its end in time.
    NotDrained,
}

/// The model of a [`RunAction`]. The times to read the output are given in nanoseconds.
pub enum RunActionModel {
    Poll,
    Spawn,
    Wait(Option<Duration>),
    Terminate,
    Drain(Option<u128>),
    Finish(Option<u128>),
    Return(ResultModel),
}

/// The model of a [`RunEvent`].
pub enum RunEventModel {
    Polled { cancelled: bool },
    Spawned,
    SpawnFailed(Seq<char>),
    Cancelled,
    TimedOut,
    Exited(ExitStatus),
    WaitFailed(Seq<char>),
    Terminated,
    Drained(StreamModel),
    NotDrained,
}

/// An event, and the time since the start of the run when it happened.
pub struct Occurrence {
    pub event: RunEventModel,
    pub elapsed: Duration,
}

/// A length of time in nanoseconds, if there is one.
pub open spec fn maybe_nanos(time: Option<Duration>) -> Option<u128> {
    match time {
        Some(time) => Some(nanos(time)),
        None => None,
    }
}

impl View for RunAction {
    type V = RunActionModel;

    open spec fn view(&self) -> RunActionModel {
        match self {
            RunAction::Poll => RunActionModel::Poll,
            RunAction::Spawn => RunActionModel::Spawn,
            RunAction::Wait(limit) => RunActionModel::Wait(*limit),
            RunAction::Terminate => RunActionModel::Terminate,
            RunAction::Drain(limit) => RunActionModel::Drain(maybe_nanos(*limit)),
            RunAction::Finish(limit) => RunActionModel::Finish(maybe_nanos(*limit)),
            RunAction::Return(result) => RunActionModel::Return(result@),
        }
    }
}

impl View for RunEvent {
    type V = RunEventModel;

    open spec fn view(&self) -> RunEventModel {
        match self {
            RunEvent::Polled { cancelled } => RunEventModel::Polled { cancelled: *cancelled },
            RunEvent::Spawned => RunEventModel::Spawned,
            RunEvent::SpawnFailed(error) => RunEventModel::SpawnFailed(error@),
            RunEvent::Cancelled => RunEventModel::Cancelled,
            RunEvent::TimedOut => RunEventModel::TimedOut,
            RunEvent::Exited(status) => RunEventModel::Exited(*status),
            RunEvent::WaitFailed(error) => RunEventModel::WaitFailed(error@),
            RunEvent::Terminated => RunEventModel::Terminated,
            RunEvent::Drained(stream) => RunEventModel::Drained(stream@),
            RunEvent::NotDrained => RunEventModel::NotDrained,
        }
    }
}

/// The model of a [`RunState`].
pub struct RunModel {
    pub runner: RunnerModel,
    /// How the wait ended, once it has.
    pub wait: Option<WaitModel>,
    pub action: RunActionModel,
}

impl RunModel {
    /// A run knows how the wait for its process ended as soon as it is over.
    pub open spec fn well_formed(self) -> bool {
        self.action is Terminate || self.action is Drain || self.action is Finish
            ==> self.wait is Some
    }
}

/// The time of grace in nanoseconds.
pub open spec fn grace_nanos() -> u128 {
    (TERMINATION_GRACE * 1_000_000_000) as u128
}

/// How long the output of a run may be read: for what is left of its time limit.
pub open spec fn drain_limit(timeout: Option<Duration>, elapsed: Duration) -> Option<u128> {
    match timeout {
        None => None,
        Some(limit) => Some(time_left(nanos(limit), nanos(elapsed))),
    }
}

/// How long the output of a run may be read once its process group was terminated: for what
/// is left of its time limit, or of the time of grace that follows it.
pub open spec fn finish_limit(timeout: Option<Duration>, elapsed: Duration) -> Option<u128> {
    match timeout {
        None => None,
        Some(limit) => {
            let left = time_left(nanos(limit), nanos(elapsed));
            let grace_left = time_left(grace_nanos(), time_left(nanos(elapsed), nanos(limit)));
            Some(
                if grace_left > left {
                    grace_left
                } else {
                    left
                },
            )
        },
    }
}

/// Whether an event is an outcome of an action.
pub open spec fn answers(event: RunEventModel, action: RunActionModel) -> bool {
    match action {
        RunActionModel::Poll => event is Polled,
        RunActionModel::Spawn => event is Spawned || event is SpawnFailed,
        RunActionModel::Wait(limit) => event is Cancelled || (event is TimedOut && limit is Some)
            || event is Exited || event is WaitFailed,
        RunActionModel::Terminate => event is Terminated,
        RunActionModel::Drain(limit) => event is Cancelled || event is Drained || (
        event is NotDrained && limit is Some),
        RunActionModel::Finish(limit) => event is Drained || (event is NotDrained
            && limit is Some),
        RunActionModel::Return(_) => false,
    }
}

/// A run at its start.
pub open spec fn started(runner: RunnerModel) -> RunModel {
    RunModel { runner, wait: None, action: RunActionModel::Poll }
}

/// A run after one more event, which answers its action.
///
/// A run whose process has exited, but whose output is not at its end when the time limit is
/// over, has timed out like one whose process has not exited. If it is cancelled at that
/// stage, the rest of its process group is terminated; what has become of the process itself
/// still counts.
pub open spec fn after(run: RunModel, event: RunEventModel, elapsed: Duration) -> RunModel {
    let timeout = run.runner.timeout;
    match event {
        RunEventModel::Polled { cancelled } => RunModel {
            action: if cancelled {
                RunActionModel::Return(
                    ResultModel {
                        status: RunStatus::Cancelled,
                        duration: elapsed,
                        detail: None,
                    },
                )
            } else {
                RunActionModel::Spawn
            },
            ..run
        },
        RunEventModel::Spawned => RunModel { action: RunActionModel::Wait(timeout), ..run },
        RunEventModel::SpawnFailed(error) => RunModel {
            action: RunActionModel::Return(
                failure(
                    elapsed,
                    "could not start "@ + path_text(run.runner.executable) + ": "@ + error,
                ),
            ),
            ..run
        },
        RunEventModel::Cancelled => RunModel {
            wait: if run.action is Wait {
                Some(WaitModel::Cancelled)
            } else {
                run.wait
            },
            action: RunActionModel::Terminate,
            ..run
        },
        RunEventModel::TimedOut => RunModel {
            wait: Some(WaitModel::TimedOut),
            action: RunActionModel::Terminate,
            ..run
        },
        RunEventModel::Exited(status) => RunModel {
            wait: Some(WaitModel::Exited(Ok(status))),
            action: RunActionModel::Drain(drain_limit(timeout, elapsed)),
            ..run
        },
        RunEventModel::WaitFailed(error) => RunModel {
            wait: Some(WaitModel::Exited(Err(error))),
            action: RunActionModel::Drain(drain_limit(timeout, elapsed)),
            ..run
        },
        RunEventModel::Terminated => RunModel {
            action: RunActionModel::Finish(finish_limit(timeout, elapsed)),
            ..run
        },
        RunEventModel::Drained(stream) => RunModel {
            wait: None,
            action: RunActionModel::Return(run_result(timeout, run.wait->0, stream, elapsed)),
            ..run
        },
        RunEventModel::NotDrained => if run.action is Drain {
            RunModel {
                wait: Some(WaitModel::TimedOut),
                action: RunActionModel::Terminate,
                ..run
            }
        } else {
            RunModel {
                wait: None,
                action: RunActionModel::Return(
                    run_result(timeout, overdue(run.wait->0), empty_stream(), elapsed),
                ),
                ..run
            }
        },
    }
}

/// How a wait is counted, if the output of the run was never at its end.
pub open spec fn overdue(wait: WaitModel) -> WaitModel {
    match wait {
        WaitModel::Cancelled => WaitModel::Cancelled,
        _ => WaitModel::TimedOut,
    }
}

/// What is shown when an event happens: the start of a process, if much is to be said.
pub open spec fn run_output(runner: RunnerModel, event: RunEventModel) -> Option<Written> {
    match event {
        RunEventModel::Polled { cancelled: false } => if runner.verbose {
            Some(
                stderr_line(
                    "[codex-loop] starting "@ + path_text(runner.executable) + " exec --json"@,
                ),
            )
        } else {
            None
        },
        _ => None,
    }
}

/// A run of Codex under way.
#[derive(Debug)]
pub struct RunState<'a> {
    runner: &'a Runner,
    wait: Option<WaitResult>,
    action: RunAction,
}

impl<'a> View for RunState<'a> {
    type V = RunModel;

    closed spec fn view(&self) -> RunModel {
        RunModel {
            runner: self.runner@,
            wait: match self.wait {
                Some(wait) => Some(wait@),
                None => None,
            },
            action: self.action@,
        }
    }
}

impl<'a> RunState<'a> {
    /// Starts a run.
    pub fn new(runner: &'a Runner) -> (state: RunState<'a>)
        ensures
            state@ == started(runner@),
            state@.well_formed(),
    {
        RunState { runner, wait: None, action: RunAction::Poll }
    }

    /// What is to be done next.
    pub fn action(&self) -> (action: &RunAction)
        ensures
            action@ == self@.action,
    {
        &self.action
    }

    /// What is to be done next, for a run that goes no further.
    pub fn into_action(self) -> (action: RunAction)
        ensures
            action@ == self@.action,
    {
        self.action
    }

    /// Goes on after an event, which happened when so much time had passed since the start of
    /// the run, and says what is shown of it.
    pub fn step(&mut self, event: RunEvent, elapsed: Duration) -> (output: Option<Output>)
        requires
            old(self)@.well_formed(),
            answers(event@, old(self)@.action),
        ensures
            final(self)@ == after(old(self)@, event@, elapsed),
            final(self)@.well_formed(),
            maybe_written(output) == run_output(old(self)@.runner, event@),
    {
        let mut output: Option<Output> = None;
        match event {
            RunEvent::Polled { cancelled } => {
                if cancelled {
                    self.action = RunAction::Return(RunResult::new(RunStatus::Cancelled, elapsed));
                } else {
                    output = self.runner.announce_start();
                    self.action = RunAction::Spawn;
                }
            },
            RunEvent::Spawned => {
                self.action = RunAction::Wait(self.runner.time_limit());
            },
            RunEvent::SpawnFailed(error) => {
                self.action = RunAction::Return(self.runner.spawn_failure(error.as_str(), elapsed));
            },
            RunEvent::Cancelled => {
                if let RunAction::Wait(_) = &self.action {
                    self.wait = Some(WaitResult::Cancelled);
                }
                self.action = RunAction::Terminate;
            },
            RunEvent::TimedOut => {
                self.wait = Some(WaitResult::TimedOut);
                self.action = RunAction::Terminate;
            },
            RunEvent::Exited(status) => {
                self.wait = Some(WaitResult::Exited(Ok(status)));
                self.action = self.drain(elapsed);
            },
            RunEvent::WaitFailed(error) => {
                self.wait = Some(WaitResult::Exited(Err(error)));
                self.action = self.drain(elapsed);
            },
            RunEvent::Terminated => {
                self.action = self.finish(elapsed);
            },
            RunEvent::Drained(stream) => {
                if let Some(wait) = self.wait.take() {
                    self.action = RunAction::Return(self.runner.conclude(wait, stream, elapsed));
                }
            },
            RunEvent::NotDrained => {
                if let RunAction::Drain(_) = &self.action {
                    self.wait = Some(WaitResult::TimedOut);
                    self.action = RunAction::Terminate;
                } else if let Some(wait) = self.wait.take() {
                    let wait = match wait {
                        WaitResult::Cancelled => WaitResult::Cancelled,
                        _ => WaitResult::TimedOut,
                    };
                    let stream = StreamResult::default();
                    self.action = RunAction::Return(self.runner.conclude(wait, stream, elapsed));
                }
            },
        }
        output
    }

    /// The reading of what is left of the output.
    fn drain(&self, elapsed: Duration) -> (action: RunAction)
        ensures
            action@ == RunActionModel::Drain(drain_limit(self@.runner.timeout, elapsed)),
    {
        match self.runner.time_limit() {
            Some(limit) => RunAction::Drain(Some(limit.saturating_sub(elapsed))),
            None => RunAction::Drain(None),
        }
    }

    /// The reading of what is left of the output of a terminated group.
    fn finish(&self, elapsed: Duration) -> (action: RunAction)
        ensures
            action@ == RunActionModel::Finish(finish_limit(self@.runner.timeout, elapsed)),
    {
        match self.runner.time_limit() {
            Some(limit) => {
                let left = limit.saturating_sub(elapsed);
                let grace_left = termination_grace().saturating_sub(elapsed.saturating_sub(limit));
                if grace_left.as_nanos() > left.as_nanos() {
                    RunAction::Finish(Some(grace_left))
                } else {
                    RunAction::Finish(Some(left))
                }
            },
            None => RunAction::Finish(None),
        }
    }
}

/// A run after several events.
pub open spec fn after_all(runner: RunnerModel, events: Seq<Occurrence>) -> RunModel
    decreases events.len(),
{
    if events.len() == 0 {
        started(runner)
    } else {
        after(
            after_all(runner, events.drop_last()),
            events.last().event,
            events.last().elapsed,
        )
    }
}

/// Whether events can happen to a run in this order: each of them answers the action that
/// the ones before it have led to.
pub open spec fn possible(runner: RunnerModel, events: Seq<Occurrence>) -> bool
    decreases events.len(),
{
    events.len() > 0 ==> {
        &&& possible(runner, events.drop_last())
        &&& answers(events.last().event, after_all(runner, events.drop_last()).action)
    }
}

/// Whether the process of a run has been started.
pub open spec fn has_process(events: Seq<Occurrence>) -> bool {
    &&& events.len() >= 2
    &&& events[0].event == (RunEventModel::Polled { cancelled: false })
    &&& events[1].event is Spawned
}

/// How the wait of a run ended, by the event that ended it.
pub open spec fn wait_of(event: RunEventModel) -> WaitModel {
    match event {
        RunEventModel::TimedOut => WaitModel::TimedOut,
        RunEventModel::Exited(status) => WaitModel::Exited(Ok(status)),
        RunEventModel::WaitFailed(error) => WaitModel::Exited(Err(error)),
        _ => WaitModel::Cancelled,
    }
}

/// Whether the wait of a run ended with the end of its process, or in failure.
spec fn exits(event: RunEventModel) -> bool {
    event is Exited || event is WaitFailed
}

/// Whether the wait of a run was broken off.
spec fn breaks_off(event: RunEventModel, timeout: Option<Duration>) -> bool {
    event is Cancelled || (event is TimedOut && timeout is Some)
}

/// How the wait of a run is counted, once its output was or was not read in time as well.
spec fn wait_in(events: Seq<Occurrence>) -> WaitModel {
    if exits(events[2].event) && events.len() >= 4 && events[3].event is NotDrained {
        WaitModel::TimedOut
    } else {
        wait_of(events[2].event)
    }
}

/// Whether the reading of the output of a run was broken off.
spec fn breaks_off_drain(event: RunEventModel, timeout: Option<Duration>) -> bool {
    event is Cancelled || (event is NotDrained && timeout is Some)
}

/// Whether events lead to the termination of the process group of a run as their last one.
spec fn just_broken_off(events: Seq<Occurrence>, timeout: Option<Duration>) -> bool {
    ||| events.len() == 3 && breaks_off(events[2].event, timeout)
    ||| events.len() == 4 && exits(events[2].event) && breaks_off_drain(events[3].event, timeout)
}

/// Where a run is, and what has led it there.
spec fn course(runner: RunnerModel, events: Seq<Occurrence>) -> bool {
    let run = after_all(runner, events);
    let n = events.len();
    let timeout = runner.timeout;
    &&& run.runner == runner
    &&& match run.action {
        RunActionModel::Poll => n == 0 && run.wait is None,
        RunActionModel::Spawn => n == 1 && events[0].event == (RunEventModel::Polled {
            cancelled: false,
        }),
        RunActionModel::Wait(limit) => n == 2 && has_process(events) && limit == timeout,
        RunActionModel::Drain(limit) => {
            &&& has_process(events)
            &&& n == 3 && exits(events[2].event)
            &&& run.wait == Some(wait_in(events))
            &&& limit == drain_limit(timeout, events.last().elapsed)
        },
        RunActionModel::Terminate => {
            &&& has_process(events)
            &&& just_broken_off(events, timeout)
            &&& run.wait == Some(wait_in(events))
        },
        RunActionModel::Finish(limit) => {
            &&& has_process(events)
            &&& n > 3 && just_broken_off(events.drop_last(), timeout)
            &&& events.last().event is Terminated
            &&& run.wait == Some(wait_in(events))
            &&& limit == finish_limit(timeout, events.last().elapsed)
        },
        RunActionModel::Return(result) => {
            &&& n > 0
            &&& result.duration == events.last().elapsed
            &&& {
                ||| n == 1 && events[0].event == (RunEventModel::Polled { cancelled: true })
                    && result.status == RunStatus::Cancelled && result.detail is None
                ||| n == 2 && events[0].event == (RunEventModel::Polled { cancelled: false })
                    && events[1].event is SpawnFailed && result.status == RunStatus::Failed
                    && result.detail is Some
                ||| {
                    &&& has_process(events)
                    &&& {
                        ||| n == 4 && exits(events[2].event)
                        ||| n > 4 && just_broken_off(events.drop_last().drop_last(), timeout)
                            && events[n - 2].event is Terminated
                    }
                    &&& match events.last().event {
                        RunEventModel::Drained(stream) => result == run_result(
                            timeout,
                            wait_in(events),
                            stream,
                            result.duration,
                        ),
                        RunEventModel::NotDrained => n > 4 && timeout is Some && result
                            == run_result(
                            timeout,
                            overdue(wait_in(events)),
                            empty_stream(),
                            result.duration,
                        ),
                        _ => false,
                    }
                }
            }
        },
    }
}

proof fn lemma_course(runner: RunnerModel, events: Seq<Occurrence>)
    requires
        possible(runner, events),
    ensures
        course(runner, events),
    decreases events.len(),
{
    if events.len() > 0 {
        lemma_course(runner, events.drop_last());
    }
}

/// A run is over after six events at most, and nothing happens to it any more once it is
/// over.
pub proof fn law_run_ends(runner: RunnerModel, events: Seq<Occurrence>)
    requires
        possible(runner, events),
    ensures
        events.len() <= 6,
        events.len() == 6 ==> after_all(runner, events).action is Return,
        after_all(runner, events).action is Return ==> forall|next: Occurrence|
            !possible(runner, #[trigger] events.push(next)),
{
    lemma_course(runner, events);
    if after_all(runner, events).action is Return {
        assert forall|next: Occurrence| !possible(runner, #[trigger] events.push(next)) by {
            assert(events.push(next).drop_last() =~= events);
        }
    }
}

/// Whether an event says that a run was cancelled or that its time was over.
pub open spec fn interrupts(event: RunEventModel) -> bool {
    event is Cancelled || event is TimedOut || event is NotDrained
}

/// Once the process of a run was started, its group is terminated before the run is over, if
/// and only if the run was cancelled or its time was over. Such a run counts as cancelled if
/// that was before the process exited, and as timed out if its time was over first.
pub proof fn law_process_is_terminated(
    runner: RunnerModel,
    events: Seq<Occurrence>,
    result: ResultModel,
)
    requires
        possible(runner, events),
        has_process(events),
        after_all(runner, events).action == RunActionModel::Return(result),
    ensures
        (exists|i: int| 0 <= i < events.len() && interrupts((#[trigger] events[i]).event)) <==> (
        exists|i: int| 0 <= i < events.len() - 1 && (#[trigger] events[i]).event is Terminated),
        result.status == RunStatus::Cancelled <==> events[2].event is Cancelled,
        result.status == RunStatus::TimedOut <==> (events[2].event is TimedOut || (
        events[2].event !is Cancelled && (events[3].event is NotDrained
            || events.last().event is NotDrained))),
{
    lemma_course(runner, events);
    let n = events.len();
    if n > 4 {
        assert(events[n - 2].event is Terminated);
        assert(interrupts(events[n - 3].event));
    }
}

proof fn lemma_earlier_events_are_possible(runner: RunnerModel, events: Seq<Occurrence>, n: int)
    requires
        possible(runner, events),
        0 <= n <= events.len(),
    ensures
        possible(runner, events.take(n)),
    decreases events.len(),
{
    if n < events.len() {
        lemma_earlier_events_are_possible(runner, events.drop_last(), n);
        assert(events.drop_last().take(n) =~= events.take(n));
    } else {
        assert(events.take(n) =~= events);
    }
}

/// A run asks for the start of one process, right after it was seen not to be cancelled, and
/// never for another one. If it is cancelled before that, it asks for none.
pub proof fn law_one_start_per_run(runner: RunnerModel, events: Seq<Occurrence>, n: int)
    requires
        possible(runner, events),
        0 <= n <= events.len(),
    ensures
        after_all(runner, events.take(n)).action is Spawn <==> n == 1 && events[0].event == (
        RunEventModel::Polled { cancelled: false }),
        n < events.len() ==> ((events[n].event is Spawned || events[n].event is SpawnFailed) <==> n
            == 1),
{
    lemma_earlier_events_are_possible(runner, events, n);
    lemma_course(runner, events.take(n));
    if n < events.len() {
        lemma_earlier_events_are_possible(runner, events, n + 1);
        assert(events.take(n + 1).drop_last() =~= events.take(n));
    }
}

/// A run that is cancelled before its process is started starts none.
pub proof fn law_cancelled_run_starts_nothing(runner: RunnerModel, events: Seq<Occurrence>)
    requires
        possible(runner, events),
        events.len() > 0,
        events[0].event == (RunEventModel::Polled { cancelled: true }),
    ensures
        events.len() == 1,
        after_all(runner, events).action == RunActionModel::Return(
            ResultModel {
                status: RunStatus::Cancelled,
                duration: events[0].elapsed,
                detail: None,
            },
        ),
{
    lemma_course(runner, events);
    assert(events.drop_last().len() == 0);
}

/// A run times out only if it was given a time limit.
pub proof fn law_time_out_needs_limit(
    runner: RunnerModel,
    events: Seq<Occurrence>,
    result: ResultModel,
)
    requires
        possible(runner, events),
        after_all(runner, events).action == RunActionModel::Return(result),
        result.status == RunStatus::TimedOut,
    ensures
        runner.timeout is Some,
{
    lemma_course(runner, events);
}

/// A run that is over has a reason to show if and only if it counts as a failure, and it
/// took the time that had passed when its last event happened.
pub proof fn law_failures_have_reasons(
    runner: RunnerModel,
    events: Seq<Occurrence>,
    result: ResultModel,
)
    requires
        possible(runner, events),
        after_all(runner, events).action == RunActionModel::Return(result),
    ensures
        result.detail is Some <==> result.status.is_failure(),
        result.duration == events.last().elapsed,
{
    lemma_course(runner, events);
}

/// A run is complete if and only if its process exited by itself with success, in time, and
/// its output was read to its end in time, reported the completion of the turn, and reported
/// no failure.
pub proof fn law_completion(
    runner: RunnerModel,
    events: Seq<Occurrence>,
    result: ResultModel,
)
    requires
        possible(runner, events),
        after_all(runner, events).action == RunActionModel::Return(result),
    ensures
        result.status == RunStatus::Completed <==> {
            &&& has_process(events)
            &&& events[2].event matches RunEventModel::Exited(status)
            &&& status.success
            &&& events[3].event !is NotDrained
            &&& events.last().event matches RunEventModel::Drained(stream)
            &&& stream.completed
            &&& stream.failure is None
        },
{
    lemma_course(runner, events);
}

/// How much time an action asks for at most, in nanoseconds, if there is a limit to it.
pub open spec fn time_for(action: RunActionModel) -> Option<nat> {
    match action {
        RunActionModel::Wait(limit) => match limit {
            Some(limit) => Some(nanos(limit) as nat),
            None => None,
        },
        RunActionModel::Terminate => Some(grace_nanos() as nat),
        RunActionModel::Drain(limit) | RunActionModel::Finish(limit) => match limit {
            Some(limit) => Some(limit as nat),
            None => None,
        },
        _ => Some(0),
    }
}

/// When the last of several events happened, in nanoseconds after the start of the run.
pub open spec fn time_of_last(events: Seq<Occurrence>) -> nat {
    if events.len() == 0 {
        0
    } else {
        nanos(events.last().elapsed) as nat
    }
}

/// Whether no action of a run took longer than it asked for, but for a delay.
pub open spec fn timely(runner: RunnerModel, events: Seq<Occurrence>, delay: nat) -> bool
    decreases events.len(),
{
    events.len() > 0 ==> {
        let before = events.drop_last();
        &&& timely(runner, before, delay)
        &&& time_for(after_all(runner, before).action) matches Some(time)
            ==> time_of_last(events) <= time_of_last(before) + time + delay
    }
}

proof fn lemma_run_is_limited(
    runner: RunnerModel,
    events: Seq<Occurrence>,
    limit: Duration,
    delay: nat,
)
    requires
        possible(runner, events),
        timely(runner, events, delay),
        runner.timeout == Some(limit),
    ensures
        ({
            let run = after_all(runner, events);
            let n = events.len();
            time_of_last(events) <= n * delay + if n <= 2 {
                0
            } else if run.action is Drain || run.action is Terminate {
                nanos(limit) as nat
            } else {
                (nanos(limit) + grace_nanos()) as nat
            }
        }),
    decreases events.len(),
{
    lemma_course(runner, events);
    if events.len() > 0 {
        let before = events.drop_last();
        lemma_run_is_limited(runner, before, limit, delay);
        lemma_course(runner, before);
        assert(events.len() * delay == before.len() * delay + delay) by (nonlinear_arith)
            requires
                events.len() == before.len() + 1,
        ;
    }
}

/// The time limit is the most that a run takes, but for the time of grace that its process
/// group is given to end: if no step takes longer than it is asked to, save for a delay, the
/// run is over in so much time and six times that delay. This holds even if the process
/// exits early and others keep its output open.
pub proof fn law_run_is_limited(
    runner: RunnerModel,
    events: Seq<Occurrence>,
    result: ResultModel,
    limit: Duration,
    delay: nat,
)
    requires
        possible(runner, events),
        timely(runner, events, delay),
        runner.timeout == Some(limit),
        after_all(runner, events).action == RunActionModel::Return(result),
    ensures
        nanos(result.duration) <= nanos(limit) + grace_nanos() + 6 * delay,
{
    lemma_course(runner, events);
    lemma_run_is_limited(runner, events, limit, delay);
    assert(events.len() * delay <= 6 * delay) by (nonlinear_arith)
        requires
            events.len() <= 6,
    ;
}

/// Whether the times of events do not fall, and no action of a run was broken off for its time
/// before it had the time that it asked for.
pub open spec fn unhurried(runner: RunnerModel, events: Seq<Occurrence>) -> bool
    decreases events.len(),
{
    events.len() > 0 ==> {
        let before = events.drop_last();
        &&& unhurried(runner, before)
        &&& time_of_last(events) >= time_of_last(before)
        &&& events.last().event is TimedOut || events.last().event is NotDrained ==> (time_for(
            after_all(runner, before).action,
        ) matches Some(time) ==> time_of_last(events) >= time_of_last(before) + time)
    }
}

proof fn lemma_time_out_takes_the_limit(
    runner: RunnerModel,
    events: Seq<Occurrence>,
    limit: Duration,
)
    requires
        possible(runner, events),
        unhurried(runner, events),
        runner.timeout == Some(limit),
    ensures
        ({
            let run = after_all(runner, events);
            run.wait == Some(WaitModel::TimedOut) || (run.action matches RunActionModel::Return(
                result,
            ) && result.status == RunStatus::TimedOut) ==> time_of_last(events) >= nanos(limit)
        }),
    decreases events.len(),
{
    lemma_course(runner, events);
    if events.len() > 0 {
        let before = events.drop_last();
        lemma_time_out_takes_the_limit(runner, before, limit);
        lemma_course(runner, before);
    }
}

/// A run that timed out took its time limit at least: if nothing is broken off for its time
/// early, no run is said to have timed out before its limit is over.
pub proof fn law_time_out_takes_the_limit(
    runner: RunnerModel,
    events: Seq<Occurrence>,
    result: ResultModel,
    limit: Duration,
)
    requires
        possible(runner, events),
        unhurried(runner, events),
        runner.timeout == Some(limit),
        after_all(runner, events).action == RunActionModel::Return(result),
    ensures
        result.status == RunStatus::TimedOut ==> nanos(result.duration) >= nanos(limit),
{
    lemma_course(runner, events);
    lemma_time_out_takes_the_limit(runner, events, limit);
}

/// Saying more adds to what is shown of a run, and takes nothing away; it changes nothing in
/// the course of the run.
pub proof fn law_verbose_adds_to_run(
    runner: RunnerModel,
    wait: Option<WaitModel>,
    action: RunActionModel,
    event: RunEventModel,
    elapsed: Duration,
)
    ensures
        ({
            let quiet = RunnerModel { verbose: false, ..runner };
            let verbose = RunnerModel { verbose: true, ..runner };
            let quietly = after(RunModel { runner: quiet, wait, action }, event, elapsed);
            let verbosely = after(RunModel { runner: verbose, wait, action }, event, elapsed);
            &&& run_output(quiet, event) is None
            &&& quietly.wait == verbosely.wait
            &&& quietly.action == verbosely.action
        }),
{
}

/// Every outcome of what a run waits for is accepted, and no other event: time can only be
/// over where there is a limit to it, and a run can be cancelled as long as its process or
/// the output of it is waited for.
pub proof fn law_run_accepts_every_outcome(event: RunEventModel, action: RunActionModel)
    ensures
        event is Polled ==> (answers(event, action) <==> action is Poll),
        event is Spawned || event is SpawnFailed ==> (answers(event, action) <==> action is Spawn),
        event is Exited || event is WaitFailed ==> (answers(event, action) <==> action is Wait),
        event is Cancelled ==> (answers(event, action) <==> action is Wait || action is Drain),
        event is TimedOut ==> (answers(event, action) <==> action is Wait && action->Wait_0
            is Some),
        event is Terminated ==> (answers(event, action) <==> action is Terminate),
        event is Drained ==> (answers(event, action) <==> action is Drain || action is Finish),
        event is NotDrained ==> (answers(event, action) <==> {
            ||| action is Drain && action->Drain_0 is Some
            ||| action is Finish && action->Finish_0 is Some
        }),
{
}

/// A run begins by looking whether it is cancelled. If it is, it is over at once; if not, it
/// asks for its process.
pub proof fn law_run_begins(runner: RunnerModel, run: RunModel, cancelled: bool, elapsed: Duration)
    ensures
        started(runner).runner == runner,
        started(runner).action == RunActionModel::Poll,
        started(runner).wait is None,
        ({
            let next = after(run, RunEventModel::Polled { cancelled }, elapsed);
            &&& next.runner == run.runner
            &&& !cancelled ==> next.action == RunActionModel::Spawn
            &&& cancelled ==> {
                &&& next.action matches RunActionModel::Return(result)
                &&& result.status is Cancelled
                &&& result.duration == elapsed
                &&& result.detail is None
            }
        }),
{
}

/// A process that was started is waited for, for the whole time limit. If it could not be
/// started, the run has failed, and says which executable could not be started and why.
pub proof fn law_start_of_process(run: RunModel, error: Seq<char>, elapsed: Duration)
    ensures
        ({
            let next = after(run, RunEventModel::Spawned, elapsed);
            &&& next.runner == run.runner
            &&& next.action == RunActionModel::Wait(run.runner.timeout)
        }),
        ({
            let next = after(run, RunEventModel::SpawnFailed(error), elapsed);
            &&& next.action matches RunActionModel::Return(result)
            &&& result.status is Failed
            &&& result.duration == elapsed
            &&& result.detail == Some(
                "could not start "@ + path_text(run.runner.executable) + ": "@ + error,
            )
        }),
{
}

/// A wait that is broken off leads to the termination of the process group, and its end is
/// kept: a time-out, or a cancellation.
pub proof fn law_wait_is_broken_off(run: RunModel, elapsed: Duration)
    requires
        run.action is Wait,
    ensures
        ({
            let cancelled = after(run, RunEventModel::Cancelled, elapsed);
            let late = after(run, RunEventModel::TimedOut, elapsed);
            &&& cancelled.runner == run.runner && late.runner == run.runner
            &&& cancelled.action is Terminate && late.action is Terminate
            &&& cancelled.wait == Some(WaitModel::Cancelled)
            &&& late.wait == Some(WaitModel::TimedOut)
        }),
{
}

/// When the process has exited, or the wait for it has failed, that is kept, and the output is
/// read until the time limit is over, counted from the start of the run; without a limit, to
/// its end.
pub proof fn law_output_is_read_until_the_limit(
    run: RunModel,
    status: ExitStatus,
    error: Seq<char>,
    elapsed: Duration,
)
    ensures
        ({
            let exited = after(run, RunEventModel::Exited(status), elapsed);
            let lost = after(run, RunEventModel::WaitFailed(error), elapsed);
            &&& exited.runner == run.runner && lost.runner == run.runner
            &&& exited.wait == Some(WaitModel::Exited(Ok(status)))
            &&& lost.wait == Some(WaitModel::Exited(Err(error)))
            &&& exited.action == lost.action
            &&& exited.action matches RunActionModel::Drain(time)
            &&& match run.runner.timeout {
                Some(limit) => {
                    &&& time is Some
                    &&& nanos(elapsed) <= nanos(limit) ==> nanos(elapsed) + time->0 == nanos(limit)
                    &&& nanos(elapsed) > nanos(limit) ==> time->0 == 0
                },
                None => time is None,
            }
        }),
{
}

/// When the process group was terminated, its output is read until two seconds after the
/// time limit at the latest. It has two seconds for that, or more, unless the limit is over;
/// without a limit, it is read to its end.
pub proof fn law_output_is_read_after_termination(run: RunModel, elapsed: Duration)
    ensures
        ({
            let next = after(run, RunEventModel::Terminated, elapsed);
            &&& next.runner == run.runner
            &&& next.wait == run.wait
            &&& next.action matches RunActionModel::Finish(time)
            &&& match run.runner.timeout {
                Some(limit) => {
                    let end = nanos(limit) + 2_000_000_000;
                    &&& time is Some
                    &&& nanos(elapsed) > end ==> time->0 == 0
                    &&& nanos(limit) <= nanos(elapsed) <= end ==> nanos(elapsed) + time->0 == end
                    &&& nanos(elapsed) < nanos(limit) ==> {
                        &&& time->0 >= 2_000_000_000
                        &&& nanos(elapsed) + time->0 >= nanos(limit)
                        &&& time->0 == 2_000_000_000 || nanos(elapsed) + time->0 == nanos(limit)
                    }
                },
                None => time is None,
            }
        }),
{
}

/// When the output was read to its end, the run is over: how the wait ended and what was read
/// decide, and the run took the time that has passed.
pub proof fn law_run_ends_with_its_output(
    run: RunModel,
    wait: WaitModel,
    stream: StreamModel,
    elapsed: Duration,
)
    requires
        run.wait == Some(wait),
    ensures
        ({
            let next = after(run, RunEventModel::Drained(stream), elapsed);
            &&& next.action matches RunActionModel::Return(result)
            &&& result == run_result(run.runner.timeout, wait, stream, elapsed)
            &&& result.duration == elapsed
            &&& result.status is Cancelled <==> wait is Cancelled
            &&& result.status is TimedOut <==> wait is TimedOut
            &&& result.status is Completed <==> {
                &&& wait matches WaitModel::Exited(Ok(status))
                &&& status.success
                &&& stream.completed
                &&& stream.failure is None
            }
        }),
{
}

/// Output that is not read in time ends the run. At first the process group is terminated;
/// the run has timed out. If that does not end the output, the run is over, as cancelled if
/// it was cancelled while its process was waited for, and as timed out otherwise.
pub proof fn law_overdue_output(run: RunModel, wait: WaitModel, elapsed: Duration)
    requires
        run.wait == Some(wait),
    ensures
        ({
            let next = after(run, RunEventModel::NotDrained, elapsed);
            &&& next.runner == run.runner
            &&& run.action is Drain ==> next.action is Terminate && next.wait == Some(
                WaitModel::TimedOut,
            )
            &&& run.action is Finish ==> {
                &&& next.action matches RunActionModel::Return(result)
                &&& result.duration == elapsed
                &&& result.status is Cancelled <==> wait is Cancelled
                &&& result.status is TimedOut <==> !(wait is Cancelled)
                &&& wait is Cancelled ==> result.detail is None
                &&& !(wait is Cancelled) && run.runner.timeout is Some ==> result.detail == Some(
                    "exceeded "@ + formatted_duration(nanos(run.runner.timeout->0)),
                )
            }
        }),
{
}

/// A cancellation while the output is read leads to the termination of what is left of the
/// process group, and changes nothing in how the process ended.
pub proof fn law_cancelled_output(run: RunModel, elapsed: Duration)
    requires
        run.action is Drain,
    ensures
        ({
            let next = after(run, RunEventModel::Cancelled, elapsed);
            &&& next.runner == run.runner
            &&& next.action is Terminate
            &&& next.wait == run.wait
        }),
{
}

/// Only the start of a process is shown, on standard error, with the whole name of the
/// executable, and only if much is to be said.
pub proof fn law_start_is_shown(runner: RunnerModel, event: RunEventModel)
    ensures
        run_output(runner, event) is Some <==> runner.verbose && event == (RunEventModel::Polled {
            cancelled: false,
        }),
        run_output(runner, event) matches Some(shown) ==> shown.channel == Channel::Stderr
            && shown.text == "[codex-loop] starting "@ + path_text(runner.executable)
            + " exec --json"@ + seq!['\n'],
{
    reveal_strlit("\n");
}

/// Actions are taken as they stand, and times by their length.
pub proof fn law_run_action_model(action: RunAction)
    ensures
        match action {
            RunAction::Poll => action@ is Poll,
            RunAction::Spawn => action@ is Spawn,
            RunAction::Wait(limit) => action@ == RunActionModel::Wait(limit),
            RunAction::Terminate => action@ is Terminate,
            RunAction::Drain(Some(time)) => action@ == RunActionModel::Drain(Some(nanos(time))),
            RunAction::Drain(None) => action@ == RunActionModel::Drain(None),
            RunAction::Finish(Some(time)) => action@ == RunActionModel::Finish(Some(nanos(time))),
            RunAction::Finish(None) => action@ == RunActionModel::Finish(None),
            RunAction::Return(result) => action@ == RunActionModel::Return(result@),
        },
{
}

/// Events are taken as they stand.
pub proof fn law_run_event_model(event: RunEvent)
    ensures
        match event {
            RunEvent::Polled { cancelled } => event@ == (RunEventModel::Polled { cancelled }),
            RunEvent::Spawned => event@ is Spawned,
            RunEvent::SpawnFailed(error) => event@ == RunEventModel::SpawnFailed(error@),
            RunEvent::Cancelled => event@ is Cancelled,
            RunEvent::TimedOut => event@ is TimedOut,
            RunEvent::Exited(status) => event@ == RunEventModel::Exited(status),
            RunEvent::WaitFailed(error) => event@ == RunEventModel::WaitFailed(error@),
            RunEvent::Terminated => event@ is Terminated,
            RunEvent::Drained(stream) => event@ == RunEventModel::Drained(stream@),
            RunEvent::NotDrained => event@ is NotDrained,
        },
{
}

} // verus!
