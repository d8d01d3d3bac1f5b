//! The scheduling core of a monitor for containers.
//!
//! The monitor lists the containers of a runtime, polls the load and the log
//! of each in background tasks, and takes commands to start, stop, pause and
//! restart them. This crate holds everything that is decided along the way:
//! which tasks are started and which are turned away as duplicates, what a
//! sample or a batch of log lines does to the shared model, when the
//! initialisation is over, and what each command asks for. The calls to the
//! runtime and the tasks themselves are the caller's: every function here
//! takes what came back from outside as an argument, and hands out what is to
//! be done next.
//!
//! - [`docker_data`] is the scheduler with its registry of tasks.
//! - [`app_data`] is the shared model of the containers.
//! - [`ui`] holds the status flags and turns log lines into styled text.

pub mod app_data;
pub mod app_error;
pub mod docker_data;
pub mod parse_args;
pub mod text;
pub mod ui;
