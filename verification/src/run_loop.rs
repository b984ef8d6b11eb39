//! The loop: which run comes next, when, and when the loop is over.
//!
//! A [`LoopState`] says by its [`LoopAction`] what is to be done. Once that is done, the
//! outcome is handed back as a [`LoopEvent`].

use std::time::Duration;

use vstd::prelude::*;
use vstd::string::*;

use crate::output::{all_written, maybe_written, stderr_line, Channel, Output, Written};
use crate::runner::{ResultModel, RunResult, RunStatus};
use crate::text::{decimal, decimal_text, maybe_text};
use crate::time::{format_duration, formatted_duration, nanos};

verus! {

/// What the loop is asked to do.
#[derive(Clone, Copy, Debug)]
pub struct LoopOptions {
    /// The time between the end of a run and the start of the next one.
    pub interval: Duration,
    /// The number of runs to stop after.
    pub max_runs: Option<u64>,
    /// Whether to stop after a run that failed.
    pub stop_on_error: bool,
    /// Whether to say why the loop stops.
    pub verbose: bool,
}

/// How the loop ended.
#[derive(Clone, Copy, Debug, Eq, PartialEq, Structural)]
pub enum LoopExit {
    Finished,
    Cancelled,
}

/// What the loop waits for.
#[derive(Clone, Copy, Debug, PartialEq, Eq)]
pub enum LoopAction {
    /// See whether the loop has been cancelled.
    Poll,
    /// Do the run of this number.
    Run(u64),
    /// Sleep for so long, or until the loop is cancelled.
    Sleep(Duration),
    /// The loop is over.
    Exit(LoopExit),
}

/// What happened to the loop.
#[derive(Debug)]
pub enum LoopEvent {
    /// It was seen whether the loop has been cancelled.
    Polled { cancelled: bool },
    /// The run is over.
    Ran(RunResult),
    /// The sleep is over; a cancellation may have interrupted it.
    Slept { interrupted: bool },
}

/// The model of a [`LoopEvent`].
pub enum LoopEventModel {
    Polled { cancelled: bool },
    Ran(ResultModel),
    Slept { interrupted: bool },
}

impl View for LoopEvent {
    type V = LoopEventModel;

    open spec fn view(&self) -> LoopEventModel {
        match self {
            LoopEvent::Polled { cancelled } => LoopEventModel::Polled { cancelled: *cancelled },
            LoopEvent::Ran(result) => LoopEventModel::Ran(result@),
            LoopEvent::Slept { interrupted } => LoopEventModel::Slept {
                interrupted: *interrupted,
            },
        }
    }
}

/// The model of a [`LoopState`].
pub struct LoopModel {
    pub options: LoopOptions,
    /// How many runs have been started.
    pub run_number: u64,
    pub action: LoopAction,
}

/// The loop at its start.
pub open spec fn loop_started(options: LoopOptions) -> LoopModel {
    LoopModel { options, run_number: 0, action: LoopAction::Poll }
}

/// Whether an event is an outcome of what the loop waits for. Runs are counted up to
/// `u64::MAX`.
pub open spec fn loop_accepts(state: LoopModel, event: LoopEventModel) -> bool {
    match state.action {
        LoopAction::Poll => event matches LoopEventModel::Polled { cancelled } && (cancelled
            || state.run_number < u64::MAX),
        LoopAction::Run(_) => event is Ran,
        LoopAction::Sleep(_) => event is Slept,
        LoopAction::Exit(_) => false,
    }
}

/// Whether as many runs have been started as are asked for.
pub open spec fn enough_runs(options: LoopOptions, run_number: u64) -> bool {
    options.max_runs matches Some(maximum) && run_number >= maximum
}

/// Whether a run that ended so ends the loop.
pub open spec fn stops_loop(options: LoopOptions, status: RunStatus) -> bool {
    options.stop_on_error && status.is_failure()
}

/// What follows a run.
pub open spec fn action_after_run(
    options: LoopOptions,
    run_number: u64,
    status: RunStatus,
) -> LoopAction {
    if status == RunStatus::Cancelled {
        LoopAction::Exit(LoopExit::Cancelled)
    } else if stops_loop(options, status) || enough_runs(options, run_number) {
        LoopAction::Exit(LoopExit::Finished)
    } else {
        LoopAction::Sleep(options.interval)
    }
}

/// The loop after one more event, which it accepts.
pub open spec fn loop_after(state: LoopModel, event: LoopEventModel) -> LoopModel {
    match event {
        LoopEventModel::Polled { cancelled: true } | LoopEventModel::Slept {
            interrupted: true,
        } => LoopModel { action: LoopAction::Exit(LoopExit::Cancelled), ..state },
        LoopEventModel::Polled { cancelled: false } => {
            let run_number = (state.run_number + 1) as u64;
            LoopModel { run_number, action: LoopAction::Run(run_number), ..state }
        },
        LoopEventModel::Ran(result) => LoopModel {
            action: action_after_run(state.options, state.run_number, result.status),
            ..state
        },
        LoopEventModel::Slept { interrupted: false } => LoopModel {
            action: LoopAction::Poll,
            ..state
        },
    }
}

/// What is shown of a run that went wrong.
pub open spec fn problem_output(
    label: Seq<char>,
    duration: Seq<char>,
    detail: Option<Seq<char>>,
) -> Written {
    let problem = "[codex-loop] "@ + label + " after "@ + duration;
    match detail {
        Some(detail) => stderr_line(problem + ": "@ + detail),
        None => stderr_line(problem),
    }
}

/// What is shown of a run that is over.
pub open spec fn result_output(result: ResultModel) -> Option<Written> {
    let duration = formatted_duration(nanos(result.duration));
    match result.status {
        RunStatus::Completed => Some(stderr_line("[codex-loop] completed in "@ + duration)),
        RunStatus::Failed => Some(problem_output("failed"@, duration, result.detail)),
        RunStatus::TimedOut => Some(problem_output("timed out"@, duration, result.detail)),
        RunStatus::Cancelled => None,
    }
}

/// What is shown of the loop after a run: why it stops, if much is to be said, or else when
/// it goes on.
pub open spec fn outlook_output(
    options: LoopOptions,
    run_number: u64,
    status: RunStatus,
) -> Option<Written> {
    if status == RunStatus::Cancelled {
        None
    } else if stops_loop(options, status) {
        if options.verbose {
            Some(stderr_line("[codex-loop] stopping after failed iteration"@))
        } else {
            None
        }
    } else if enough_runs(options, run_number) {
        if options.verbose {
            Some(
                stderr_line(
                    "[codex-loop] reached maximum of "@ + decimal(run_number as nat) + " runs"@,
                ),
            )
        } else {
            None
        }
    } else {
        Some(
            stderr_line(
                "[codex-loop] next run in "@ + formatted_duration(nanos(options.interval)),
            ),
        )
    }
}

/// An output that may be absent, as a sequence.
pub open spec fn as_seq(output: Option<Written>) -> Seq<Written> {
    match output {
        Some(output) => seq![output],
        None => seq![],
    }
}

/// What is shown when an event happens to the loop.
pub open spec fn loop_output(state: LoopModel, event: LoopEventModel) -> Seq<Written> {
    match event {
        LoopEventModel::Polled { cancelled: false } => seq![
            stderr_line("[codex-loop] iteration "@ + decimal((state.run_number + 1) as nat)),
        ],
        LoopEventModel::Ran(result) => as_seq(result_output(result)) + as_seq(
            outlook_output(state.options, state.run_number, result.status),
        ),
        _ => seq![],
    }
}

/// Shows a run that went wrong.
pub fn report_problem(label: &str, duration: &str, detail: &Option<String>) -> (output: Output)
    ensures
        output@ == problem_output(label@, duration@, maybe_text(*detail)),
{
    let problem = "[codex-loop] ".to_owned().concat(label).concat(" after ").concat(duration);
    match detail {
        Some(detail) => Output::stderr_message(problem.concat(": ").as_str(), detail.as_str()),
        None => Output::stderr_line(problem.as_str()),
    }
}

/// Shows a run that is over.
pub fn report_result(result: &RunResult) -> (output: Option<Output>)
    ensures
        maybe_written(output) == result_output(result@),
{
    let duration = format_duration(result.duration);
    match result.status {
        RunStatus::Completed => Some(
            Output::stderr_message("[codex-loop] completed in ", duration.as_str()),
        ),
        RunStatus::Failed => Some(report_problem("failed", duration.as_str(), &result.detail)),
        RunStatus::TimedOut => Some(
            report_problem("timed out", duration.as_str(), &result.detail),
        ),
        RunStatus::Cancelled => None,
    }
}

/// The loop under way.
#[derive(Debug)]
pub struct LoopState {
    options: LoopOptions,
    run_number: u64,
    action: LoopAction,
}

impl View for LoopState {
    type V = LoopModel;

    closed spec fn view(&self) -> LoopModel {
        LoopModel { options: self.options, run_number: self.run_number, action: self.action }
    }
}

impl LoopState {
    /// Starts the loop.
    pub fn new(options: LoopOptions) -> (state: LoopState)
        ensures
            state@ == loop_started(options),
    {
        LoopState { options, run_number: 0, action: LoopAction::Poll }
    }

    /// What is to be done next.
    pub fn action(&self) -> (action: LoopAction)
        ensures
            action == self@.action,
    {
        self.action
    }

    /// How many runs have been started.
    pub fn run_number(&self) -> (run_number: u64)
        ensures
            run_number == self@.run_number,
    {
        self.run_number
    }

    /// Goes on after an event, and says what is shown of it.
    pub fn step(&mut self, event: &LoopEvent) -> (outputs: Vec<Output>)
        requires
            loop_accepts(old(self)@, event@),
        ensures
            final(self)@ == loop_after(old(self)@, event@),
            all_written(outputs@) == loop_output(old(self)@, event@),
    {
        let mut outputs: Vec<Output> = Vec::new();
        match event {
            LoopEvent::Polled { cancelled } => {
                if *cancelled {
                    self.action = LoopAction::Exit(LoopExit::Cancelled);
                } else {
                    self.run_number = self.run_number + 1;
                    outputs.push(
                        Output::stderr_message(
                            "[codex-loop] iteration ",
                            decimal_text(self.run_number).as_str(),
                        ),
                    );
                    self.action = LoopAction::Run(self.run_number);
                }
            },
            LoopEvent::Ran(result) => {
                if let Some(output) = report_result(result) {
                    outputs.push(output);
                }
                let (action, outlook) = self.next_action(result.status);
                if let Some(output) = outlook {
                    outputs.push(output);
                }
                self.action = action;
            },
            LoopEvent::Slept { interrupted } => {
                if *interrupted {
                    self.action = LoopAction::Exit(LoopExit::Cancelled);
                } else {
                    self.action = LoopAction::Poll;
                }
            },
        }
        assert(all_written(outputs@) =~= loop_output(old(self)@, event@));
        outputs
    }

    /// What follows a run, and what is shown of that.
    fn next_action(&self, status: RunStatus) -> (next: (LoopAction, Option<Output>))
        ensures
            next.0 == action_after_run(self@.options, self@.run_number, status),
            maybe_written(next.1) == outlook_output(self@.options, self@.run_number, status),
    {
        if status == RunStatus::Cancelled {
            return (LoopAction::Exit(LoopExit::Cancelled), None);
        }
        if self.options.stop_on_error && status.failed() {
            let output = if self.options.verbose {
                Some(Output::stderr_line("[codex-loop] stopping after failed iteration"))
            } else {
                None
            };
            return (LoopAction::Exit(LoopExit::Finished), output);
        }
        if let Some(maximum) = self.options.max_runs {
            if self.run_number >= maximum {
                let output = if self.options.verbose {
                    let reached = "[codex-loop] reached maximum of ".to_owned().concat(
                        decimal_text(self.run_number).as_str(),
                    );
                    Some(Output::stderr_message(reached.as_str(), " runs"))
                } else {
                    None
                };
                return (LoopAction::Exit(LoopExit::Finished), output);
            }
        }
        let output = Output::stderr_message(
            "[codex-loop] next run in ",
            format_duration(self.options.interval).as_str(),
        );
        (LoopAction::Sleep(self.options.interval), Some(output))
    }
}

impl LoopExit {
    /// What is shown when the loop has ended so.
    pub fn farewell(self) -> (output: Option<Output>)
        ensures
            maybe_written(output) == match self {
                LoopExit::Finished => None,
                LoopExit::Cancelled => Some(stderr_line("[codex-loop] stopping"@)),
            },
    {
        match self {
            LoopExit::Finished => None,
            LoopExit::Cancelled => Some(Output::stderr_line("[codex-loop] stopping")),
        }
    }
}

/// The loop after several events.
pub open spec fn loop_after_all(options: LoopOptions, events: Seq<LoopEventModel>) -> LoopModel
    decreases events.len(),
{
    if events.len() == 0 {
        loop_started(options)
    } else {
        loop_after(loop_after_all(options, events.drop_last()), events.last())
    }
}

/// Whether events can happen to the loop in this order: it accepts each of them after the
/// ones before it.
pub open spec fn loop_possible(options: LoopOptions, events: Seq<LoopEventModel>) -> bool
    decreases events.len(),
{
    events.len() > 0 ==> {
        &&& loop_possible(options, events.drop_last())
        &&& loop_accepts(loop_after_all(options, events.drop_last()), events.last())
    }
}

/// Whether an event tells of a cancellation.
pub open spec fn is_cancellation(event: LoopEventModel) -> bool {
    match event {
        LoopEventModel::Polled { cancelled } => cancelled,
        LoopEventModel::Ran(result) => result.status == RunStatus::Cancelled,
        LoopEventModel::Slept { interrupted } => interrupted,
    }
}

/// How many of the events are the end of a run.
pub open spec fn runs_ended(events: Seq<LoopEventModel>) -> nat
    decreases events.len(),
{
    if events.len() == 0 {
        0
    } else {
        runs_ended(events.drop_last()) + if events.last() is Ran {
            1nat
        } else {
            0nat
        }
    }
}

/// How many of the events are the end of a sleep.
pub open spec fn sleeps_ended(events: Seq<LoopEventModel>) -> nat
    decreases events.len(),
{
    if events.len() == 0 {
        0
    } else {
        sleeps_ended(events.drop_last()) + if events.last() is Slept {
            1nat
        } else {
            0nat
        }
    }
}

/// Where the loop is, and what has led it there.
spec fn loop_course(options: LoopOptions, events: Seq<LoopEventModel>) -> bool {
    let state = loop_after_all(options, events);
    let runs = runs_ended(events);
    let sleeps = sleeps_ended(events);
    &&& state.options == options
    &&& match state.action {
        LoopAction::Poll => {
            &&& state.run_number == runs == sleeps
            &&& runs > 0 ==> !enough_runs(options, state.run_number)
            &&& if events.len() == 0 {
                runs == 0
            } else {
                events.last() == (LoopEventModel::Slept { interrupted: false })
            }
        },
        LoopAction::Run(number) => {
            &&& state.run_number == number == runs + 1
            &&& sleeps == runs
            &&& runs > 0 ==> !enough_runs(options, runs as u64)
            &&& events.len() > 0
            &&& events.last() == (LoopEventModel::Polled { cancelled: false })
        },
        LoopAction::Sleep(time) => {
            &&& state.run_number == runs == sleeps + 1
            &&& time == options.interval
            &&& !enough_runs(options, state.run_number)
            &&& events.len() > 0
            &&& events.last() matches LoopEventModel::Ran(result)
            &&& result.status != RunStatus::Cancelled
            &&& !stops_loop(options, result.status)
        },
        LoopAction::Exit(LoopExit::Finished) => {
            &&& state.run_number == runs == sleeps + 1
            &&& runs > 1 ==> !enough_runs(options, (runs - 1) as u64)
            &&& events.len() > 0
            &&& events.last() matches LoopEventModel::Ran(result)
            &&& result.status != RunStatus::Cancelled
            &&& stops_loop(options, result.status) || enough_runs(options, state.run_number)
        },
        LoopAction::Exit(LoopExit::Cancelled) => {
            &&& state.run_number == runs
            &&& runs > 1 ==> !enough_runs(options, (runs - 1) as u64)
            &&& events.len() > 0
            &&& is_cancellation(events.last())
        },
    }
}

proof fn lemma_loop_course(options: LoopOptions, events: Seq<LoopEventModel>)
    requires
        loop_possible(options, events),
    ensures
        loop_course(options, events),
    decreases events.len(),
{
    if events.len() > 0 {
        lemma_loop_course(options, events.drop_last());
    }
}

/// The events up to any point of a possible course are a possible course.
proof fn lemma_loop_prefix(options: LoopOptions, events: Seq<LoopEventModel>, end: int)
    requires
        loop_possible(options, events),
        0 <= end <= events.len(),
    ensures
        loop_possible(options, events.take(end)),
        end < events.len() ==> loop_accepts(
            loop_after_all(options, events.take(end)),
            events[end],
        ),
        end < events.len() ==> loop_after_all(options, events.take(end + 1)) == loop_after(
            loop_after_all(options, events.take(end)),
            events[end],
        ),
    decreases events.len() - end,
{
    if end == events.len() {
        assert(events.take(end) =~= events);
    } else {
        lemma_loop_prefix(options, events, end + 1);
        assert(events.take(end + 1).drop_last() =~= events.take(end));
        assert(events.take(end + 1).last() == events[end]);
    }
}

/// Runs are numbered from one, in the order in which they are started.
pub proof fn law_runs_are_numbered(options: LoopOptions, events: Seq<LoopEventModel>, number: u64)
    requires
        loop_possible(options, events),
        loop_after_all(options, events).action == LoopAction::Run(number),
    ensures
        number == runs_ended(events) + 1,
        number == loop_after_all(options, events).run_number,
{
    lemma_loop_course(options, events);
}

/// No more runs are started than are asked for.
pub proof fn law_max_runs_is_kept(
    options: LoopOptions,
    events: Seq<LoopEventModel>,
    maximum: u64,
)
    requires
        loop_possible(options, events),
        options.max_runs == Some(maximum),
        maximum >= 1,
    ensures
        loop_after_all(options, events).run_number <= maximum,
{
    lemma_loop_course(options, events);
}

/// A loop that is not cancelled, and that no failure stops, ends after exactly as many runs
/// as are asked for, and without a sleep after the last one.
pub proof fn law_stops_at_max_runs(
    options: LoopOptions,
    events: Seq<LoopEventModel>,
    maximum: u64,
    exit: LoopExit,
)
    requires
        loop_possible(options, events),
        options.max_runs == Some(maximum),
        maximum >= 1,
        loop_after_all(options, events).action == LoopAction::Exit(exit),
        forall|i: int| 0 <= i < events.len() ==> !is_cancellation(#[trigger] events[i]),
        forall|i: int|
            0 <= i < events.len() ==> match #[trigger] events[i] {
                LoopEventModel::Ran(result) => !stops_loop(options, result.status),
                _ => true,
            },
    ensures
        exit == LoopExit::Finished,
        runs_ended(events) == maximum,
        sleeps_ended(events) == maximum - 1,
        events.last() is Ran,
{
    lemma_loop_course(options, events);
    assert(events.last() == events[events.len() - 1]);
}

/// A loop without a maximum number of runs goes on until it is cancelled or a failure stops
/// it.
pub proof fn law_loop_goes_on(options: LoopOptions, events: Seq<LoopEventModel>, exit: LoopExit)
    requires
        loop_possible(options, events),
        options.max_runs is None,
        loop_after_all(options, events).action == LoopAction::Exit(exit),
    ensures
        events.len() > 0,
        exit == LoopExit::Cancelled ==> is_cancellation(events.last()),
        exit == LoopExit::Finished ==> options.stop_on_error && events.last() is Ran && (
        events.last()->Ran_0).status.is_failure(),
{
    lemma_loop_course(options, events);
}

/// Every run but the first one is preceded by a sleep of the whole interval, which began when
/// the run before it was over.
pub proof fn law_interval_between_runs(
    options: LoopOptions,
    events: Seq<LoopEventModel>,
    number: u64,
)
    requires
        loop_possible(options, events),
        loop_after_all(options, events).action == LoopAction::Run(number),
        number > 1,
    ensures
        events.len() >= 3,
        events[events.len() - 3] is Ran,
        loop_after_all(options, events.take(events.len() - 2)).action == LoopAction::Sleep(
            options.interval,
        ),
        events[events.len() - 2] == (LoopEventModel::Slept { interrupted: false }),
        events[events.len() - 1] == (LoopEventModel::Polled { cancelled: false }),
{
    let n = events.len();
    lemma_loop_course(options, events);
    lemma_loop_prefix(options, events, n - 1);
    lemma_loop_course(options, events.take(n - 1));
    if n >= 2 {
        lemma_loop_prefix(options, events, n - 2);
        lemma_loop_course(options, events.take(n - 2));
        assert(events.take(n - 1).last() == events[n - 2]);
        if n >= 3 {
            assert(events.take(n - 2).last() == events[n - 3]);
        }
    }
    assert(events.take(n as int) =~= events);
    assert(events.take(n - 1).len() == n - 1);
}

/// The loop is cancelled by the first cancellation that it hears of, and by nothing else;
/// nothing happens after it.
pub proof fn law_cancellation_ends_loop(options: LoopOptions, events: Seq<LoopEventModel>)
    requires
        loop_possible(options, events),
    ensures
        loop_after_all(options, events).action == LoopAction::Exit(LoopExit::Cancelled) <==> (
        events.len() > 0 && is_cancellation(events.last())),
        forall|i: int|
            0 <= i < events.len() && is_cancellation(#[trigger] events[i]) ==> i == events.len()
                - 1,
{
    lemma_loop_course(options, events);
    assert forall|i: int|
        0 <= i < events.len() && is_cancellation(#[trigger] events[i]) implies i == events.len()
        - 1 by {
        if i < events.len() - 1 {
            lemma_loop_prefix(options, events, i);
            lemma_loop_prefix(options, events, i + 1);
        }
    }
}

/// With `stop_on_error`, a failed run is the last one: the loop is finished, and nothing
/// happens after it.
pub proof fn law_stop_on_error(options: LoopOptions, events: Seq<LoopEventModel>, i: int)
    requires
        loop_possible(options, events),
        options.stop_on_error,
        0 <= i < events.len(),
        events[i] is Ran,
        (events[i]->Ran_0).status.is_failure(),
    ensures
        i == events.len() - 1,
        loop_after_all(options, events).action == LoopAction::Exit(LoopExit::Finished),
{
    lemma_loop_prefix(options, events, i);
    lemma_loop_course(options, events.take(i));
    if i < events.len() - 1 {
        lemma_loop_prefix(options, events, i + 1);
    } else {
        assert(events.take(i + 1) =~= events);
    }
}

/// Without `stop_on_error`, the loop goes on after a failed run as it does after a complete
/// one.
pub proof fn law_failures_are_retried(
    state: LoopModel,
    failed: ResultModel,
    completed: ResultModel,
)
    requires
        !state.options.stop_on_error,
        failed.status.is_failure(),
        completed.status == RunStatus::Completed,
    ensures
        loop_after(state, LoopEventModel::Ran(failed)) == loop_after(
            state,
            LoopEventModel::Ran(completed),
        ),
{
}

/// Saying more adds to what is shown of the loop, and takes nothing away; it changes nothing
/// in the course of the loop.
pub proof fn law_verbose_adds_to_loop(
    options: LoopOptions,
    run_number: u64,
    action: LoopAction,
    event: LoopEventModel,
)
    ensures
        ({
            let quiet = LoopModel {
                options: LoopOptions { verbose: false, ..options },
                run_number,
                action,
            };
            let verbose = LoopModel {
                options: LoopOptions { verbose: true, ..options },
                run_number,
                action,
            };
            &&& loop_output(quiet, event).is_prefix_of(loop_output(verbose, event))
            &&& loop_after(quiet, event).action == loop_after(verbose, event).action
            &&& loop_after(quiet, event).run_number == loop_after(verbose, event).run_number
        }),
{
}

/// What is shown of the loop while several events happen.
pub open spec fn loop_shown(options: LoopOptions, events: Seq<LoopEventModel>) -> Seq<Written>
    decreases events.len(),
{
    if events.len() == 0 {
        seq![]
    } else {
        loop_shown(options, events.drop_last()) + loop_output(
            loop_after_all(options, events.drop_last()),
            events.last(),
        )
    }
}

/// Saying more changes nothing in the whole course of the loop. As long as the loop goes on,
/// the same is shown; what is added stands at its end.
pub proof fn law_verbose_adds_to_whole_loop(options: LoopOptions, events: Seq<LoopEventModel>)
    requires
        loop_possible(LoopOptions { verbose: false, ..options }, events),
    ensures
        ({
            let quiet = LoopOptions { verbose: false, ..options };
            let verbose = LoopOptions { verbose: true, ..options };
            let quietly = loop_after_all(quiet, events);
            let verbosely = loop_after_all(verbose, events);
            &&& loop_possible(verbose, events)
            &&& quietly.action == verbosely.action
            &&& quietly.run_number == verbosely.run_number
            &&& !(quietly.action is Exit) ==> loop_shown(quiet, events) == loop_shown(
                verbose,
                events,
            )
            &&& loop_shown(quiet, events).is_prefix_of(loop_shown(verbose, events))
        }),
    decreases events.len(),
{
    if events.len() > 0 {
        let quiet = LoopOptions { verbose: false, ..options };
        let verbose = LoopOptions { verbose: true, ..options };
        let before = events.drop_last();
        law_verbose_adds_to_whole_loop(options, before);
        lemma_loop_course(quiet, before);
        lemma_loop_course(verbose, before);
        assert(loop_output(loop_after_all(quiet, before), events.last()).is_prefix_of(
            loop_output(loop_after_all(verbose, before), events.last()),
        ));
    }
}

/// After a run that was not cancelled, the loop is finished if and only if the run failed or
/// timed out and errors are to stop the loop, or as many runs were started as are asked for.
/// In every other case it sleeps for the interval. A cancelled run cancels the loop.
pub proof fn law_what_follows_a_run(state: LoopModel, result: ResultModel)
    ensures
        ({
            let next = loop_after(state, LoopEventModel::Ran(result));
            let failed = result.status is Failed || result.status is TimedOut;
            let stops = {
                ||| state.options.stop_on_error && failed
                ||| state.options.max_runs is Some && state.run_number
                    >= state.options.max_runs->0
            };
            &&& next.action == LoopAction::Exit(LoopExit::Cancelled) <==> result.status
                is Cancelled
            &&& next.action == LoopAction::Exit(LoopExit::Finished) <==> !(result.status
                is Cancelled) && stops
            &&& next.action == LoopAction::Sleep(state.options.interval) <==> !(result.status
                is Cancelled) && !stops
            &&& next.run_number == state.run_number
            &&& next.options == state.options
        }),
{
}

/// A run is started, and counted, whenever the loop is seen not to be cancelled; the loop is
/// looked at again whenever a sleep was not interrupted. A cancellation ends it either way.
pub proof fn law_what_follows_a_poll_or_a_sleep(state: LoopModel, cancelled: bool)
    requires
        state.run_number < u64::MAX,
    ensures
        ({
            let polled = loop_after(state, LoopEventModel::Polled { cancelled });
            let slept = loop_after(state, LoopEventModel::Slept { interrupted: cancelled });
            &&& polled.options == state.options
            &&& slept.options == state.options
            &&& slept.run_number == state.run_number
            &&& cancelled ==> polled.action == LoopAction::Exit(LoopExit::Cancelled)
            &&& cancelled ==> slept.action == LoopAction::Exit(LoopExit::Cancelled)
            &&& cancelled ==> polled.run_number == state.run_number
            &&& !cancelled ==> polled.run_number == state.run_number + 1
            &&& !cancelled ==> polled.action == LoopAction::Run(polled.run_number)
            &&& !cancelled ==> slept.action == LoopAction::Poll
        }),
{
}

/// The loop begins by looking whether it is cancelled, before any run. Every outcome of what
/// it waits for is accepted, and no other event, as long as the runs can be counted.
pub proof fn law_loop_accepts_every_outcome(
    options: LoopOptions,
    state: LoopModel,
    result: ResultModel,
    cancelled: bool,
)
    ensures
        loop_started(options).options == options,
        loop_started(options).run_number == 0,
        loop_started(options).action == LoopAction::Poll,
        loop_accepts(state, LoopEventModel::Ran(result)) <==> state.action is Run,
        loop_accepts(state, LoopEventModel::Slept { interrupted: cancelled }) <==> state.action
            is Sleep,
        loop_accepts(state, LoopEventModel::Polled { cancelled }) <==> state.action is Poll && (
        cancelled || state.run_number < 0xffff_ffff_ffff_ffff),
{
}

/// If errors do not stop it and nothing cancels it, a loop that is over has done exactly as
/// many runs as are asked for, however they ended, and slept between each two of them.
pub proof fn law_exactly_max_runs(
    options: LoopOptions,
    events: Seq<LoopEventModel>,
    maximum: u64,
    exit: LoopExit,
)
    requires
        loop_possible(options, events),
        options.max_runs == Some(maximum),
        maximum >= 1,
        !options.stop_on_error,
        loop_after_all(options, events).action == LoopAction::Exit(exit),
        forall|i: int|
            0 <= i < events.len() ==> match #[trigger] events[i] {
                LoopEventModel::Polled { cancelled } => !cancelled,
                LoopEventModel::Ran(result) => !(result.status is Cancelled),
                LoopEventModel::Slept { interrupted } => !interrupted,
            },
    ensures
        exit == LoopExit::Finished,
        runs_ended(events) == maximum,
        sleeps_ended(events) == maximum - 1,
        events.filter(|event: LoopEventModel| event is Ran).len() == maximum,
        events.filter(|event: LoopEventModel| event is Slept).len() == maximum - 1,
{
    lemma_loop_course(options, events);
    assert(events.last() == events[events.len() - 1]);
    lemma_counts(events);
}

proof fn lemma_counts(events: Seq<LoopEventModel>)
    ensures
        runs_ended(events) == events.filter(|event: LoopEventModel| event is Ran).len(),
        sleeps_ended(events) == events.filter(|event: LoopEventModel| event is Slept).len(),
    decreases events.len(),
{
    reveal(Seq::filter);
    if events.len() > 0 {
        lemma_counts(events.drop_last());
    }
}

/// If errors do not stop it and nothing cancels it, a loop is not over before as many runs
/// are over as are asked for, and never if no number is asked for.
pub proof fn law_loop_is_not_over_early(options: LoopOptions, events: Seq<LoopEventModel>)
    requires
        loop_possible(options, events),
        !options.stop_on_error,
        events.len() > 0 ==> match events.last() {
            LoopEventModel::Polled { cancelled } => !cancelled,
            LoopEventModel::Ran(result) => !(result.status is Cancelled),
            LoopEventModel::Slept { interrupted } => !interrupted,
        },
        options.max_runs matches Some(maximum) ==> runs_ended(events) < maximum,
    ensures
        !(loop_after_all(options, events).action is Exit),
{
    lemma_loop_course(options, events);
}

/// The number of a run is shown on standard error when it is started; nothing is shown of a
/// sleep, nor of a cancellation.
pub proof fn law_iterations_are_shown(state: LoopModel, flag: bool)
    requires
        state.run_number < u64::MAX,
    ensures
        ({
            let polled = loop_output(state, LoopEventModel::Polled { cancelled: flag });
            &&& flag ==> polled.len() == 0
            &&& !flag ==> polled.len() == 1 && polled[0].channel == Channel::Stderr
                && polled[0].text == "[codex-loop] iteration "@ + decimal(
                (state.run_number + 1) as nat,
            ) + seq!['\n']
            &&& loop_output(state, LoopEventModel::Slept { interrupted: flag }).len() == 0
        }),
{
    reveal_strlit("\n");
}

/// A run that went wrong is shown on standard error, with the time that it took and the whole
/// reason, if there is one.
pub proof fn law_problems_are_shown_whole(
    label: Seq<char>,
    duration: Seq<char>,
    detail: Option<Seq<char>>,
)
    ensures
        ({
            let shown = problem_output(label, duration, detail);
            let problem = "[codex-loop] "@ + label + " after "@ + duration;
            &&& shown.channel == Channel::Stderr
            &&& detail matches Some(detail) ==> shown.text == problem + ": "@ + detail
                + seq!['\n']
            &&& detail is None ==> shown.text == problem + seq!['\n']
        }),
{
    reveal_strlit("\n");
}

/// The end of every run is shown on standard error, in words that tell how it ended and how
/// long it took, unless it was cancelled.
pub proof fn law_results_are_shown(result: ResultModel)
    ensures
        ({
            let shown = result_output(result);
            let time = formatted_duration(nanos(result.duration));
            &&& shown is None <==> result.status is Cancelled
            &&& shown is Some ==> shown->0.channel == Channel::Stderr
            &&& result.status is Completed ==> shown->0.text == "[codex-loop] completed in "@ + time
                + seq!['\n']
            &&& result.status is Failed && result.detail is Some ==> shown->0.text
                == "[codex-loop] "@ + "failed"@ + " after "@ + time + ": "@ + result.detail->0
                + seq!['\n']
            &&& result.status is Failed && result.detail is None ==> shown->0.text
                == "[codex-loop] "@ + "failed"@ + " after "@ + time + seq!['\n']
            &&& result.status is TimedOut && result.detail is Some ==> shown->0.text
                == "[codex-loop] "@ + "timed out"@ + " after "@ + time + ": "@ + result.detail->0
                + seq!['\n']
            &&& result.status is TimedOut && result.detail is None ==> shown->0.text
                == "[codex-loop] "@ + "timed out"@ + " after "@ + time + seq!['\n']
        }),
{
    reveal_strlit("\n");
}

/// After the result of a run, the loop says when it goes on, if it does. If it is finished,
/// it says why if much is to be said, and nothing otherwise. Of a cancelled run nothing is
/// shown at all.
pub proof fn law_outlook_is_shown(state: LoopModel, result: ResultModel)
    ensures
        ({
            let shown = loop_output(state, LoopEventModel::Ran(result));
            let next = loop_after(state, LoopEventModel::Ran(result)).action;
            let failed = result.status is Failed || result.status is TimedOut;
            &&& result.status is Cancelled ==> shown.len() == 0
            &&& !(result.status is Cancelled) ==> shown.len() >= 1 && result_output(result) == Some(
                shown[0],
            )
            &&& next == LoopAction::Sleep(state.options.interval) ==> shown.len() == 2
                && shown[1].channel == Channel::Stderr && shown[1].text
                == "[codex-loop] next run in "@ + formatted_duration(
                nanos(state.options.interval),
            ) + seq!['\n']
            &&& next == LoopAction::Exit(LoopExit::Finished) && !state.options.verbose
                ==> shown.len() == 1
            &&& next == LoopAction::Exit(LoopExit::Finished) && state.options.verbose
                ==> shown.len() == 2 && shown[1].channel == Channel::Stderr && shown[1].text
                == if state.options.stop_on_error && failed {
                "[codex-loop] stopping after failed iteration"@ + seq!['\n']
            } else {
                "[codex-loop] reached maximum of "@ + decimal(state.run_number as nat) + " runs"@
                    + seq!['\n']
            }
        }),
{
    reveal_strlit("\n");
}

/// What happened to the loop is taken as it stands.
pub proof fn law_loop_event_model(event: LoopEvent)
    ensures
        match event {
            LoopEvent::Polled { cancelled } => event@ == (LoopEventModel::Polled { cancelled }),
            LoopEvent::Ran(result) => event@ == LoopEventModel::Ran(result@),
            LoopEvent::Slept { interrupted } => event@ == (LoopEventModel::Slept { interrupted }),
        },
{
}

} // verus!
