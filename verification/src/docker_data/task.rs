//! The background tasks that the scheduler asks its caller to start, and what
//! each asks of the runtime.

use vstd::prelude::*;

use crate::app_data::ContainerId;
use crate::docker_data::binate::Binate;
use crate::docker_data::spawn_id::{SpawnId, SpawnKey};

verus! {

/// A background task to start. The scheduler has entered its key in the
/// registry; the task takes the key out when it ends.
#[derive(Debug, PartialEq, Eq)]
pub enum Task {
    /// Take one stats sample of the container.
    Stats { id: ContainerId, is_running: bool, binate: Binate },
    /// Read the container's log from `since` on, in seconds since the epoch.
    Log { id: ContainerId, timestamps: bool, since: u64 },
}

/// A `Task` with the container's identifier as text.
pub enum TaskView {
    Stats { id: Seq<char>, is_running: bool, binate: Binate },
    Log { id: Seq<char>, timestamps: bool, since: u64 },
}

impl View for Task {
    type V = TaskView;

    open spec fn view(&self) -> TaskView {
        match self {
            Task::Stats { id, is_running, binate } => TaskView::Stats {
                id: id@,
                is_running: *is_running,
                binate: *binate,
            },
            Task::Log { id, timestamps, since } => TaskView::Log {
                id: id@,
                timestamps: *timestamps,
                since: *since,
            },
        }
    }
}

impl TaskView {
    /// The key under which the task is registered.
    pub open spec fn key(self) -> SpawnKey {
        match self {
            TaskView::Stats { id, is_running, binate } => SpawnKey::Stats(id, binate),
            TaskView::Log { id, timestamps, since } => SpawnKey::Log(id),
        }
    }
}

/// The tasks as their views, in the same order.
pub open spec fn tasks_of(tasks: Seq<Task>) -> Seq<TaskView> {
    tasks.map_values(|task: Task| task@)
}

impl Task {
    /// The key under which the task is registered.
    pub fn spawn_id(&self) -> (key: SpawnId)
        ensures
            key@ == self@.key(),
    {
        match self {
            Task::Stats { id, is_running, binate } => SpawnId::Stats((id.clone(), *binate)),
            Task::Log { id, timestamps, since } => SpawnId::Log(id.clone()),
        }
    }
}

/// What a stats task asks of the runtime.
#[derive(Debug, Clone, Copy, PartialEq, Eq, Structural)]
pub struct StatsOptions {
    pub stream: bool,
    pub one_shot: bool,
}

/// What a log task asks of the runtime.
#[derive(Debug, Clone, Copy, PartialEq, Eq, Structural)]
pub struct LogsOptions {
    pub stdout: bool,
    pub timestamps: bool,
    pub since: i64,
}

impl StatsOptions {
    /// One sample and no stream; of a container that does not run, the one
    /// sample that is to be had at once.
    pub fn new(is_running: bool) -> (options: Self)
        ensures
            options == (StatsOptions { stream: false, one_shot: !is_running }),
    {
        StatsOptions { stream: false, one_shot: !is_running }
    }
}

impl LogsOptions {
    /// The point in time from which the log is read: `since`, or the
    /// beginning where `since` is beyond what the runtime can take.
    pub open spec fn cutoff(since: u64) -> i64 {
        if since <= i64::MAX {
            since as i64
        } else {
            0
        }
    }

    /// The standard output from `since` on, with timestamps where asked for.
    pub fn new(timestamps: bool, since: u64) -> (options: Self)
        ensures
            options == (LogsOptions { stdout: true, timestamps, since: Self::cutoff(since) }),
    {
        let cutoff: i64 = if since <= 0x7fff_ffff_ffff_ffff {
            since as i64
        } else {
            0
        };
        LogsOptions { stdout: true, timestamps, since: cutoff }
    }
}

} // verus!
