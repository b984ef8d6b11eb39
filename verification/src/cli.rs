//! What the command line asks for.

use std::path::PathBuf;
use std::time::Duration;

use vstd::prelude::*;
use vstd::string::*;

use crate::path::{is_directory, path_from, path_named, path_text, show_path};
use crate::run_loop::LoopOptions;
use crate::runner::{Runner, RunnerModel};
use crate::text::maybe_text;

verus! {

/// Run a fresh Codex prompt repeatedly at a fixed interval.
#[derive(Debug)]
pub struct Cli {
    /// Interval between runs
    pub interval: Duration,
    /// Prompt passed to Codex
    pub prompt: String,
    /// Working directory
    pub cwd: Option<PathBuf>,
    /// Codex model override
    pub model: Option<String>,
    /// Stop after so many iterations
    pub max_runs: Option<u64>,
    /// Maximum duration of an individual Codex run
    pub timeout: Option<Duration>,
    /// Stop the loop if Codex fails
    pub stop_on_error: bool,
    /// Print additional lifecycle information
    pub verbose: bool,
}

/// Accepts a path that is a directory.
pub fn checked_directory(path: PathBuf, directory: bool) -> (checked: Result<PathBuf, String>)
    ensures
        match checked {
            Ok(accepted) => directory && accepted == path,
            Err(error) => !directory && error@ == "not a directory: "@ + path_text(path),
        },
{
    if directory {
        Ok(path)
    } else {
        Err("not a directory: ".to_owned().concat(show_path(&path).as_str()))
    }
}

/// Reads the path of a directory, which must exist.
///
/// Whether it exists is for the file system to say: [`checked_directory`] states what comes
/// of either answer.
pub fn parse_directory(value: &str) -> (parsed: Result<PathBuf, String>)
    ensures
        match parsed {
            Ok(path) => path == path_named(value@) && path_text(path) == value@,
            Err(error) => error@ == "not a directory: "@ + value@,
        },
{
    let path = path_from(value);
    let directory = is_directory(&path);
    checked_directory(path, directory)
}

/// Accepts a number of iterations to stop after, which must be one at least.
pub fn checked_max_runs(max_runs: u64) -> (checked: Result<u64, String>)
    ensures
        match checked {
            Ok(accepted) => max_runs >= 1 && accepted == max_runs,
            Err(error) => max_runs == 0 && error@ == "0 is not in 1..18446744073709551615"@,
        },
{
    if max_runs >= 1 {
        Ok(max_runs)
    } else {
        Err("0 is not in 1..18446744073709551615".to_owned())
    }
}

impl Cli {
    /// The runner, the options of the loop and the prompt that are asked for.
    pub fn into_parts(self) -> (parts: (Runner, LoopOptions, String))
        ensures
            parts.0@ == (RunnerModel {
                executable: path_named("codex"@),
                cwd: self.cwd,
                model: maybe_text(self.model),
                timeout: self.timeout,
                verbose: self.verbose,
            }),
            parts.1 == (LoopOptions {
                interval: self.interval,
                max_runs: self.max_runs,
                stop_on_error: self.stop_on_error,
                verbose: self.verbose,
            }),
            parts.2@ == self.prompt@,
    {
        let runner = Runner::default().cwd(self.cwd).model(self.model).timeout(
            self.timeout,
        ).verbose(self.verbose);
        let options = LoopOptions {
            interval: self.interval,
            max_runs: self.max_runs,
            stop_on_error: self.stop_on_error,
            verbose: self.verbose,
        };
        (runner, options, self.prompt)
    }
}

} // verus!
