//! One run of Codex: how its process is started, watched and brought to an end, and what the
//! run amounts to.

use std::path::PathBuf;
use std::time::Duration;

use vstd::prelude::*;
use vstd::string::*;

use crate::event::failure_of;
use crate::json::parsed_json;
use crate::output::{maybe_written, stderr_line, Output, Written};
use crate::path::{path_from, path_named, path_text, show_path};
use crate::stream::{
    completes, event_in, fails, law_last_failure_counts, law_stream_completes,
    law_stream_without_failure, lemma_some_failure_counts, stream_of, StreamModel, StreamResult,
};
use crate::text::{maybe_text, signed_decimal, signed_decimal_text};
use crate::time::{format_duration, formatted_duration, nanos};

verus! {

/// How a run ended.
#[derive(Clone, Copy, Debug, Eq, PartialEq, Structural)]
pub enum RunStatus {
    Completed,
    Failed,
    TimedOut,
    Cancelled,
}

impl RunStatus {
    /// Whether a run that ended so counts as a failure.
    pub open spec fn is_failure(self) -> bool {
        self == RunStatus::Failed || self == RunStatus::TimedOut
    }

    /// Whether a run that ended so counts as a failure.
    pub fn failed(self) -> (failed: bool)
        ensures
            failed == self.is_failure(),
    {
        matches!(self, RunStatus::Failed | RunStatus::TimedOut)
    }
}

/// What a run amounts to.
#[derive(Debug)]
pub struct RunResult {
    pub status: RunStatus,
    pub duration: Duration,
    /// Why the run failed.
    pub detail: Option<String>,
}

/// The model of a [`RunResult`].
pub struct ResultModel {
    pub status: RunStatus,
    pub duration: Duration,
    pub detail: Option<Seq<char>>,
}

impl View for RunResult {
    type V = ResultModel;

    open spec fn view(&self) -> ResultModel {
        ResultModel {
            status: self.status,
            duration: self.duration,
            detail: maybe_text(self.detail),
        }
    }
}

impl RunResult {
    /// A result without a detail.
    pub fn new(status: RunStatus, duration: Duration) -> (result: RunResult)
        ensures
            result@ == (ResultModel { status, duration, detail: None }),
    {
        RunResult { status, duration, detail: None }
    }

    /// A failure, with the reason for it.
    pub fn failed(duration: Duration, detail: String) -> (result: RunResult)
        ensures
            result@ == failure(duration, detail@),
    {
        RunResult { status: RunStatus::Failed, duration, detail: Some(detail) }
    }
}

/// A failure, with the reason for it.
pub open spec fn failure(duration: Duration, detail: Seq<char>) -> ResultModel {
    ResultModel { status: RunStatus::Failed, duration, detail: Some(detail) }
}

/// How Codex is run.
#[derive(Debug)]
pub struct Runner {
    executable: PathBuf,
    cwd: Option<PathBuf>,
    model: Option<String>,
    timeout: Option<Duration>,
    verbose: bool,
}

/// The model of a [`Runner`].
pub struct RunnerModel {
    pub executable: PathBuf,
    pub cwd: Option<PathBuf>,
    pub model: Option<Seq<char>>,
    pub timeout: Option<Duration>,
    pub verbose: bool,
}

impl View for Runner {
    type V = RunnerModel;

    closed spec fn view(&self) -> RunnerModel {
        RunnerModel {
            executable: self.executable,
            cwd: self.cwd,
            model: maybe_text(self.model),
            timeout: self.timeout,
            verbose: self.verbose,
        }
    }
}

/// An argument of a process.
#[derive(Clone, Copy, Debug, PartialEq, Eq)]
pub enum Argument<'a> {
    Text(&'a str),
    Path(&'a PathBuf),
}

/// The model of an [`Argument`].
pub enum ArgumentModel {
    Text(Seq<char>),
    Path(PathBuf),
}

impl<'a> View for Argument<'a> {
    type V = ArgumentModel;

    open spec fn view(&self) -> ArgumentModel {
        match self {
            Argument::Text(text) => ArgumentModel::Text(text@),
            Argument::Path(path) => ArgumentModel::Path(**path),
        }
    }
}

/// A program and its arguments.
#[derive(Debug, PartialEq, Eq)]
pub struct CommandLine<'a> {
    pub program: &'a PathBuf,
    pub arguments: Vec<Argument<'a>>,
}

/// The models of several arguments.
pub open spec fn argument_models<'a>(arguments: Seq<Argument<'a>>) -> Seq<ArgumentModel> {
    arguments.map_values(|argument: Argument<'a>| argument@)
}

/// The arguments that Codex is run with: it is to execute the prompt and report events in
/// JSON, in the working directory and with the model that are asked for.
pub open spec fn codex_arguments(runner: RunnerModel, prompt: Seq<char>) -> Seq<ArgumentModel> {
    let cwd = match runner.cwd {
        Some(cwd) => seq![ArgumentModel::Text("-C"@), ArgumentModel::Path(cwd)],
        None => seq![],
    };
    let model = match runner.model {
        Some(model) => seq![ArgumentModel::Text("--model"@), ArgumentModel::Text(model)],
        None => seq![],
    };
    seq![ArgumentModel::Text("exec"@), ArgumentModel::Text("--json"@)] + cwd + model
        + seq![ArgumentModel::Text(prompt)]
}

impl Runner {
    /// A runner of the given executable, with nothing else asked for.
    pub fn new(executable: PathBuf) -> (runner: Runner)
        ensures
            runner@ == (RunnerModel {
                executable,
                cwd: None,
                model: None,
                timeout: None,
                verbose: false,
            }),
    {
        Runner { executable, cwd: None, model: None, timeout: None, verbose: false }
    }

    /// Runs Codex in a working directory.
    pub fn cwd(self, cwd: Option<PathBuf>) -> (runner: Runner)
        ensures
            runner@ == (RunnerModel { cwd, ..self@ }),
    {
        let mut runner = self;
        runner.cwd = cwd;
        runner
    }

    /// Runs Codex with a model.
    pub fn model(self, model: Option<String>) -> (runner: Runner)
        ensures
            runner@ == (RunnerModel { model: maybe_text(model), ..self@ }),
    {
        let mut runner = self;
        runner.model = model;
        runner
    }

    /// Gives a run of Codex a time limit.
    pub fn timeout(self, timeout: Option<Duration>) -> (runner: Runner)
        ensures
            runner@ == (RunnerModel { timeout, ..self@ }),
    {
        let mut runner = self;
        runner.timeout = timeout;
        runner
    }

    /// Says more about the life of a run.
    pub fn verbose(self, verbose: bool) -> (runner: Runner)
        ensures
            runner@ == (RunnerModel { verbose, ..self@ }),
    {
        let mut runner = self;
        runner.verbose = verbose;
        runner
    }

    /// Whether more is to be said about the life of a run.
    pub fn is_verbose(&self) -> (verbose: bool)
        ensures
            verbose == self@.verbose,
    {
        self.verbose
    }

    /// The command line of a run.
    pub fn command<'a>(&'a self, prompt: &'a str) -> (command: CommandLine<'a>)
        ensures
            *command.program == self@.executable,
            argument_models(command.arguments@) == codex_arguments(self@, prompt@),
    {
        let mut arguments: Vec<Argument<'a>> = Vec::new();
        arguments.push(Argument::Text("exec"));
        arguments.push(Argument::Text("--json"));
        if let Some(cwd) = &self.cwd {
            arguments.push(Argument::Text("-C"));
            arguments.push(Argument::Path(cwd));
        }
        if let Some(model) = &self.model {
            arguments.push(Argument::Text("--model"));
            arguments.push(Argument::Text(model.as_str()));
        }
        arguments.push(Argument::Text(prompt));
        assert(argument_models(arguments@) =~= codex_arguments(self@, prompt@));
        CommandLine { program: &self.executable, arguments }
    }
}

impl Default for Runner {
    /// A runner of `codex`, as the search path finds it.
    fn default() -> (runner: Runner)
        ensures
            runner@ == (RunnerModel {
                executable: path_named("codex"@),
                cwd: None,
                model: None,
                timeout: None,
                verbose: false,
            }),
    {
        Runner::new(path_from("codex"))
    }
}

impl Clone for Runner {
    fn clone(&self) -> (runner: Runner)
        ensures
            runner@ == self@,
    {
        Runner {
            executable: self.executable.clone(),
            cwd: match &self.cwd {
                Some(cwd) => Some(cwd.clone()),
                None => None,
            },
            model: match &self.model {
                Some(model) => Some(model.clone()),
                None => None,
            },
            timeout: self.timeout,
            verbose: self.verbose,
        }
    }
}

/// How a process exited.
#[derive(Clone, Copy, Debug, PartialEq, Eq, Structural)]
pub struct ExitStatus {
    pub success: bool,
    /// The exit code; a process that a signal has ended has none.
    pub code: Option<i32>,
}

/// How the wait for a process ended.
#[derive(Debug)]
pub enum WaitResult {
    /// The process exited by itself, or the wait for it failed.
    Exited(Result<ExitStatus, String>),
    /// The time limit of the run was over.
    TimedOut,
    /// The run was cancelled.
    Cancelled,
}

/// The model of a [`WaitResult`].
pub enum WaitModel {
    Exited(Result<ExitStatus, Seq<char>>),
    TimedOut,
    Cancelled,
}

impl View for WaitResult {
    type V = WaitModel;

    open spec fn view(&self) -> WaitModel {
        match self {
            WaitResult::Exited(Ok(status)) => WaitModel::Exited(Ok(*status)),
            WaitResult::Exited(Err(error)) => WaitModel::Exited(Err(error@)),
            WaitResult::TimedOut => WaitModel::TimedOut,
            WaitResult::Cancelled => WaitModel::Cancelled,
        }
    }
}

/// What a run amounts to whose process exited by itself: a process that did not succeed has
/// failed; so has one that reported a failure; and one that did not report the completion of
/// its turn.
pub open spec fn exit_result(
    status: ExitStatus,
    stream: StreamModel,
    duration: Duration,
) -> ResultModel {
    if !status.success {
        failure(
            duration,
            match status.code {
                Some(code) => "Codex exited with status "@ + signed_decimal(code as int),
                None => "Codex was terminated by a signal"@,
            },
        )
    } else if let Some(reported) = stream.failure {
        failure(duration, reported)
    } else if stream.completed {
        ResultModel { status: RunStatus::Completed, duration, detail: None }
    } else {
        failure(duration, "Codex exited without a terminal completion event"@)
    }
}

/// Says what a run amounts to whose process exited by itself.
pub fn classify_exit(status: ExitStatus, stream: StreamResult, duration: Duration) -> (result:
    RunResult)
    ensures
        result@ == exit_result(status, stream@, duration),
{
    if !status.success {
        let detail = match status.code {
            Some(code) => "Codex exited with status ".to_owned().concat(
                signed_decimal_text(code).as_str(),
            ),
            None => "Codex was terminated by a signal".to_owned(),
        };
        return RunResult::failed(duration, detail);
    }
    if let Some(reported) = stream.failure {
        return RunResult::failed(duration, reported);
    }
    if stream.completed {
        RunResult::new(RunStatus::Completed, duration)
    } else {
        RunResult::failed(duration, "Codex exited without a terminal completion event".to_owned())
    }
}

/// What a run amounts to whose process is gone.
pub open spec fn run_result(
    timeout: Option<Duration>,
    wait: WaitModel,
    stream: StreamModel,
    duration: Duration,
) -> ResultModel {
    match wait {
        WaitModel::Cancelled => ResultModel {
            status: RunStatus::Cancelled,
            duration,
            detail: None,
        },
        WaitModel::TimedOut => ResultModel {
            status: RunStatus::TimedOut,
            duration,
            detail: match timeout {
                Some(limit) => Some("exceeded "@ + formatted_duration(nanos(limit))),
                None => None,
            },
        },
        WaitModel::Exited(Err(error)) => failure(duration, "could not wait for Codex: "@ + error),
        WaitModel::Exited(Ok(status)) => exit_result(status, stream, duration),
    }
}

impl Runner {
    /// What is shown when the process is about to be started.
    pub(crate) fn announce_start(&self) -> (output: Option<Output>)
        ensures
            maybe_written(output) == if self@.verbose {
                Some(
                    stderr_line(
                        "[codex-loop] starting "@ + path_text(self@.executable) + " exec --json"@,
                    ),
                )
            } else {
                None::<Written>
            },
    {
        if self.verbose {
            let command = "[codex-loop] starting ".to_owned().concat(
                show_path(&self.executable).as_str(),
            );
            Some(Output::stderr_message(command.as_str(), " exec --json"))
        } else {
            None
        }
    }

    /// How long a run may take.
    pub(crate) fn time_limit(&self) -> (limit: Option<Duration>)
        ensures
            limit == self@.timeout,
    {
        self.timeout
    }

    /// What a run amounts to whose process could not be started.
    pub(crate) fn spawn_failure(&self, error: &str, duration: Duration) -> (result: RunResult)
        ensures
            result@ == failure(
                duration,
                "could not start "@ + path_text(self@.executable) + ": "@ + error@,
            ),
    {
        let detail = "could not start ".to_owned().concat(
            show_path(&self.executable).as_str(),
        ).concat(": ").concat(error);
        RunResult::failed(duration, detail)
    }

    /// Says what a run amounts to whose process is gone.
    pub fn conclude(&self, wait: WaitResult, stream: StreamResult, duration: Duration) -> (result:
        RunResult)
        ensures
            result@ == run_result(self@.timeout, wait@, stream@, duration),
    {
        match wait {
            WaitResult::Cancelled => RunResult::new(RunStatus::Cancelled, duration),
            WaitResult::TimedOut => {
                let detail = match self.timeout {
                    Some(limit) => Some(
                        "exceeded ".to_owned().concat(format_duration(limit).as_str()),
                    ),
                    None => None,
                };
                RunResult { status: RunStatus::TimedOut, duration, detail }
            },
            WaitResult::Exited(Err(error)) => RunResult::failed(
                duration,
                "could not wait for Codex: ".to_owned().concat(error.as_str()),
            ),
            WaitResult::Exited(Ok(status)) => classify_exit(status, stream, duration),
        }
    }
}

/// Codex is always told to execute and to report events in JSON, before anything else, and
/// the prompt is its last argument, whatever it holds.
pub proof fn law_prompt_is_last_argument(runner: RunnerModel, prompt: Seq<char>)
    ensures
        codex_arguments(runner, prompt)[0] == ArgumentModel::Text("exec"@),
        codex_arguments(runner, prompt)[1] == ArgumentModel::Text("--json"@),
        codex_arguments(runner, prompt).last() == ArgumentModel::Text(prompt),
{
}

/// A failure event overrides an exit with success: the run has failed, for the reason that
/// the last such event gives, even if the turn was said to be complete as well.
pub proof fn law_failure_event_overrides_success(
    status: ExitStatus,
    lines: Seq<Seq<char>>,
    last: int,
    duration: Duration,
)
    requires
        status.success,
        0 <= last < lines.len(),
        fails(lines[last]),
        forall|i: int| last < i < lines.len() ==> !fails(#[trigger] lines[i]),
    ensures
        exit_result(status, stream_of(lines), duration) == failure(
            duration,
            failure_of(event_in(parsed_json(lines[last]))->Ok_0),
        ),
{
    law_last_failure_counts(lines, last);
}

/// A process that exited by itself has completed its run if and only if it exited with
/// success, one of its lines says that the turn is complete, and none says that it has
/// failed.
pub proof fn law_completed_exit(status: ExitStatus, lines: Seq<Seq<char>>, duration: Duration)
    ensures
        exit_result(status, stream_of(lines), duration).status == RunStatus::Completed <==> {
            &&& status.success
            &&& exists|i: int| 0 <= i < lines.len() && completes(#[trigger] lines[i])
            &&& forall|i: int| 0 <= i < lines.len() ==> !fails(#[trigger] lines[i])
        },
{
    law_stream_completes(lines);
    if forall|i: int| 0 <= i < lines.len() ==> !fails(#[trigger] lines[i]) {
        law_stream_without_failure(lines);
    } else {
        lemma_some_failure_counts(lines);
    }
}

/// A run counts as a failure if and only if it failed or took too long.
pub proof fn law_failures_and_time_outs(status: RunStatus)
    ensures
        status.is_failure() <==> status is Failed || status is TimedOut,
{
}

/// The working directory and the model are each asked for whenever they are given, whatever
/// else is: the directory behind the first two arguments, the model before the prompt. There
/// are no other arguments.
pub proof fn law_arguments_follow_options(runner: RunnerModel, prompt: Seq<char>)
    ensures
        ({
            let arguments = codex_arguments(runner, prompt);
            let n = arguments.len();
            &&& n == 3 + (if runner.cwd is Some {
                2int
            } else {
                0int
            }) + (if runner.model is Some {
                2int
            } else {
                0int
            })
            &&& arguments[0] == ArgumentModel::Text("exec"@)
            &&& arguments[1] == ArgumentModel::Text("--json"@)
            &&& arguments[n - 1] == ArgumentModel::Text(prompt)
            &&& runner.cwd matches Some(cwd) ==> arguments[2] == ArgumentModel::Text("-C"@)
                && arguments[3] == ArgumentModel::Path(cwd)
            &&& runner.model matches Some(model) ==> arguments[n - 3] == ArgumentModel::Text(
                "--model"@,
            ) && arguments[n - 2] == ArgumentModel::Text(model)
        }),
{
}

/// The arguments depend on the working directory, the model and the prompt alone, and tell
/// them all: two runs have the same arguments if and only if they agree in these.
pub proof fn law_arguments_tell_options(
    first: RunnerModel,
    first_prompt: Seq<char>,
    second: RunnerModel,
    second_prompt: Seq<char>,
)
    ensures
        codex_arguments(first, first_prompt) == codex_arguments(second, second_prompt) <==> {
            &&& first.cwd == second.cwd
            &&& first.model == second.model
            &&& first_prompt == second_prompt
        },
{
    let a = codex_arguments(first, first_prompt);
    let b = codex_arguments(second, second_prompt);
    law_arguments_follow_options(first, first_prompt);
    law_arguments_follow_options(second, second_prompt);
    if a == b {
        assert(a[2] == b[2] && a[3] == b[3]);
        if first.cwd is Some != second.cwd is Some {
            reveal_strlit("-C");
            reveal_strlit("--model");
            assert("-C"@.len() != "--model"@.len());
        }
        assert(a[a.len() - 1] == b[b.len() - 1]);
        if first.model is Some {
            assert(a[a.len() - 2] == b[b.len() - 2]);
        }
    }
}

/// Arguments are handed over as they stand, all of them and in their order.
pub proof fn law_arguments_are_kept<'a>(arguments: Seq<Argument<'a>>, i: int)
    requires
        0 <= i < arguments.len(),
    ensures
        argument_models(arguments).len() == arguments.len(),
        match arguments[i] {
            Argument::Text(text) => argument_models(arguments)[i] == ArgumentModel::Text(text@),
            Argument::Path(path) => argument_models(arguments)[i] == ArgumentModel::Path(*path),
        },
{
}

/// A process that did not exit with success has failed, whatever it reported; the reason is
/// its exit code, if it has one, or else a signal.
pub proof fn law_failed_exit(status: ExitStatus, stream: StreamModel, duration: Duration)
    requires
        !status.success,
    ensures
        ({
            let result = exit_result(status, stream, duration);
            &&& result.status is Failed
            &&& result.duration == duration
            &&& match status.code {
                Some(code) => result.detail == Some(
                    "Codex exited with status "@ + signed_decimal(code as int),
                ),
                None => result.detail == Some("Codex was terminated by a signal"@),
            }
        }),
{
}

/// A process that exited with success has failed for the reason that it reported, if it
/// reported one. If not, it is complete if it said so, and has failed otherwise.
pub proof fn law_successful_exit(status: ExitStatus, stream: StreamModel, duration: Duration)
    requires
        status.success,
    ensures
        ({
            let result = exit_result(status, stream, duration);
            &&& result.duration == duration
            &&& result.status is Completed <==> stream.failure is None && stream.completed
            &&& result.status is Failed <==> !(result.status is Completed)
            &&& result.status is Completed ==> result.detail is None
            &&& stream.failure is Some ==> result.detail == stream.failure
            &&& stream.failure is None && !stream.completed ==> result.detail == Some(
                "Codex exited without a terminal completion event"@,
            )
        }),
{
}

/// A run takes the time that it is said to have taken. It is cancelled or timed out if and
/// only if its wait was; a wait that failed has failed the run; and of a process that exited
/// by itself, the exit and what it reported decide.
pub proof fn law_verdict(
    timeout: Option<Duration>,
    wait: WaitModel,
    stream: StreamModel,
    duration: Duration,
)
    ensures
        ({
            let result = run_result(timeout, wait, stream, duration);
            &&& result.duration == duration
            &&& result.status is Cancelled <==> wait is Cancelled
            &&& result.status is TimedOut <==> wait is TimedOut
            &&& wait is Cancelled ==> result.detail is None
            &&& wait is TimedOut ==> match timeout {
                Some(limit) => result.detail == Some("exceeded "@ + formatted_duration(
                    nanos(limit),
                )),
                None => result.detail is None,
            }
            &&& wait matches WaitModel::Exited(Err(error)) ==> result.status is Failed
                && result.detail == Some("could not wait for Codex: "@ + error)
            &&& wait matches WaitModel::Exited(Ok(status)) ==> result == exit_result(
                status,
                stream,
                duration,
            )
        }),
{
}

/// Results and waits are taken as they stand.
pub proof fn law_run_models(result: RunResult, wait: WaitResult)
    ensures
        result@.status == result.status,
        result@.duration == result.duration,
        result@.detail == maybe_text(result.detail),
        match wait {
            WaitResult::Cancelled => wait@ is Cancelled,
            WaitResult::TimedOut => wait@ is TimedOut,
            WaitResult::Exited(Ok(status)) => wait@ == WaitModel::Exited(Ok(status)),
            WaitResult::Exited(Err(error)) => wait@ == WaitModel::Exited(Err(error@)),
        },
{
}

/// A failure has the given reason, and takes the given time.
pub proof fn law_failure(duration: Duration, detail: Seq<char>)
    ensures
        failure(duration, detail).status is Failed,
        failure(duration, detail).duration == duration,
        failure(duration, detail).detail == Some(detail),
{
}

} // verus!
