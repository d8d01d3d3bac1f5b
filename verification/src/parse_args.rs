//! The settings that the monitor was started with.

use vstd::prelude::*;

verus! {

/// The settings that the scheduler reads.
#[derive(Debug, Clone, Copy, PartialEq, Eq, Structural)]
pub struct CliArgs {
    /// Milliseconds between two refreshes.
    pub docker_interval: u32,
    /// Whether the container that runs the monitor itself is shown.
    pub show_self: bool,
    /// Whether log lines are asked for with their timestamps.
    pub timestamp: bool,
}

} // verus!
