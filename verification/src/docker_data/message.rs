//! The commands that the scheduler takes.

use vstd::prelude::*;

use crate::app_data::ContainerId;
use crate::app_error::DockerControls;
use crate::docker_data::spawn_id::{SpawnId, SpawnKey};
use crate::docker_data::spawns::keys_of;

verus! {

/// A command to the scheduler. Commands are taken one at a time, in the order
/// in which they arrive.
#[derive(Debug, Clone, PartialEq, Eq)]
pub enum DockerMessage {
    Pause(ContainerId),
    Restart(ContainerId),
    Start(ContainerId),
    Stop(ContainerId),
    Unpause(ContainerId),
    /// Refresh everything now.
    Update,
    /// Cancel the background tasks and stop.
    Quit,
}

impl DockerMessage {
    /// The call to the runtime that the command asks for, and the container
    /// that it is about; none for the commands that ask for no call.
    pub open spec fn control(self) -> Option<(DockerControls, Seq<char>)> {
        match self {
            DockerMessage::Pause(id) => Some((DockerControls::Pause, id@)),
            DockerMessage::Restart(id) => Some((DockerControls::Restart, id@)),
            DockerMessage::Start(id) => Some((DockerControls::Start, id@)),
            DockerMessage::Stop(id) => Some((DockerControls::Stop, id@)),
            DockerMessage::Unpause(id) => Some((DockerControls::Unpause, id@)),
            DockerMessage::Update => None,
            DockerMessage::Quit => None,
        }
    }
}

/// What the caller has to do for a command.
#[derive(Debug, PartialEq, Eq)]
pub enum Request {
    /// Make this one call to the runtime for container `id`, while the
    /// loading sign is shown under `uuid`, and report how it ended.
    Docker { control: DockerControls, id: ContainerId, uuid: u128 },
    /// List the containers and refresh everything.
    Update,
    /// Cancel these tasks, and stop.
    Quit { cancelled: Vec<SpawnId> },
}

/// A `Request` with its identifiers as text and keys.
pub enum RequestView {
    Docker { control: DockerControls, id: Seq<char>, uuid: u128 },
    Update,
    Quit { cancelled: Seq<SpawnKey> },
}

impl View for Request {
    type V = RequestView;

    open spec fn view(&self) -> RequestView {
        match self {
            Request::Docker { control, id, uuid } => RequestView::Docker {
                control: *control,
                id: id@,
                uuid: *uuid,
            },
            Request::Update => RequestView::Update,
            Request::Quit { cancelled } => RequestView::Quit { cancelled: keys_of(cancelled@) },
        }
    }
}

} // verus!
