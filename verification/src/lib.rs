//! Runs one prompt in a fresh Codex process over and over, at a fixed interval.
//!
//! The library decides; it does not wait, read or write. [`run_loop`] says which run comes
//! next and when the loop is over, [`run`] and [`runner`] how one run goes and what it
//! amounts to, [`stream`] and [`event`] what the events of a run mean and what is shown of
//! them, [`termination`] how a process group is brought to an end, and [`cli`], [`time`] and
//! [`notation`] what the command line may ask for.

pub mod cli;
pub mod event;
pub mod json;
pub mod notation;
pub mod output;
pub mod path;
pub mod run;
pub mod run_loop;
pub mod runner;
pub mod stream;
pub mod termination;
pub mod text;
pub mod time;
