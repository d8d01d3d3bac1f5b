//! The errors that the monitor shows.

use vstd::prelude::*;

verus! {

/// The commands that change what a container does.
#[derive(Debug, Clone, Copy, PartialEq, Eq, Hash, Structural)]
pub enum DockerControls {
    Pause,
    Restart,
    Start,
    Stop,
    Unpause,
}

/// The one error that the monitor shows at a time.
#[derive(Debug, Clone, Copy, PartialEq, Eq, Hash, Structural)]
pub enum AppError {
    /// The runtime refused the command.
    DockerCommand(DockerControls),
    /// The runtime could not be reached.
    DockerConnect,
}

} // verus!
