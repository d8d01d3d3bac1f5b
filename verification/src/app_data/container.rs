//! One container as the runtime lists it, and as the model keeps it.

use vstd::prelude::*;

use crate::app_data::container_id::ContainerId;
use crate::docker_data::stats::CpuLoad;
use crate::text::same_text;

verus! {

/// What a container is doing, as the runtime names it.
#[derive(Debug, Clone, Copy, PartialEq, Eq, Hash, Structural)]
pub enum State {
    Created,
    Dead,
    Exited,
    Paused,
    Removing,
    Restarting,
    Running,
    Unknown,
}

impl State {
    /// The state that the runtime's word stands for.
    pub open spec fn parse(text: Seq<char>) -> State {
        if text == "created"@ {
            State::Created
        } else if text == "dead"@ {
            State::Dead
        } else if text == "exited"@ {
            State::Exited
        } else if text == "paused"@ {
            State::Paused
        } else if text == "removing"@ {
            State::Removing
        } else if text == "restarting"@ {
            State::Restarting
        } else if text == "running"@ {
            State::Running
        } else {
            State::Unknown
        }
    }

    /// Reads the runtime's word for a state.
    pub fn from_text(text: &str) -> (state: State)
        ensures
            state == State::parse(text@),
    {
        if same_text(text, "created") {
            State::Created
        } else if same_text(text, "dead") {
            State::Dead
        } else if same_text(text, "exited") {
            State::Exited
        } else if same_text(text, "paused") {
            State::Paused
        } else if same_text(text, "removing") {
            State::Removing
        } else if same_text(text, "restarting") {
            State::Restarting
        } else if same_text(text, "running") {
            State::Running
        } else {
            State::Unknown
        }
    }

    /// A container is worth polling while it runs or is being restarted.
    pub open spec fn pollable(self) -> bool {
        self == State::Running || self == State::Restarting
    }

    /// Whether a container in this state is worth polling.
    pub fn is_pollable(self) -> (r: bool)
        ensures
            r == self.pollable(),
    {
        match self {
            State::Running | State::Restarting => true,
            _ => false,
        }
    }
}

/// A container as the runtime lists it. Every field may be missing.
#[derive(Debug, Clone, PartialEq, Eq)]
pub struct ContainerSummary {
    pub id: Option<String>,
    pub name: Option<String>,
    pub image: Option<String>,
    pub command: Option<String>,
    pub state: Option<String>,
}

/// The text of a field that may be missing: nothing where it is.
pub open spec fn text_or_empty(field: Option<String>) -> Seq<char> {
    match field {
        Some(text) => text@,
        None => Seq::<char>::empty(),
    }
}

impl ContainerSummary {
    /// The identifier, where the runtime gave one.
    pub open spec fn id_text(&self) -> Option<Seq<char>> {
        match self.id {
            Some(id) => Some(id@),
            None => None,
        }
    }

    /// The state that the listing shows; unknown where it names none.
    pub open spec fn listed_state(&self) -> State {
        State::parse(text_or_empty(self.state))
    }

    /// Reads the state that the listing shows.
    pub fn state(&self) -> (state: State)
        ensures
            state == self.listed_state(),
    {
        match &self.state {
            Some(text) => State::from_text(text.as_str()),
            None => {
                proof {
                    reveal_strlit("");
                    assert(""@ =~= Seq::<char>::empty());
                }
                State::from_text("")
            },
        }
    }
}

/// What the model keeps of one container.
#[derive(Debug)]
pub struct ContainerItem {
    pub id: ContainerId,
    pub name: String,
    pub image: String,
    pub command: String,
    pub state: State,
    /// The processor load of the latest sample; none while the container does
    /// not run or has not been sampled.
    pub cpu_stats: Option<CpuLoad>,
    /// The memory in use at the latest sample.
    pub mem_stats: Option<u64>,
    pub mem_limit: u64,
    pub rx: u64,
    pub tx: u64,
    /// The log lines received so far, oldest first.
    pub logs: Vec<String>,
    /// When the logs were last asked for, in seconds since the epoch.
    pub last_updated: u64,
    /// Whether the runtime no longer lists the container.
    pub retired: bool,
    /// Whether a stats sample has been recorded.
    pub stats_seen: bool,
    /// Whether a batch of log lines has been recorded.
    pub logs_seen: bool,
}

/// A `ContainerItem` with its texts as sequences of characters.
pub struct ContainerView {
    pub id: Seq<char>,
    pub name: Seq<char>,
    pub image: Seq<char>,
    pub command: Seq<char>,
    pub state: State,
    pub cpu_stats: Option<CpuLoad>,
    pub mem_stats: Option<u64>,
    pub mem_limit: u64,
    pub rx: u64,
    pub tx: u64,
    pub logs: Seq<Seq<char>>,
    pub last_updated: u64,
    pub retired: bool,
    pub stats_seen: bool,
    pub logs_seen: bool,
}

/// The lines of a log as sequences of characters.
pub open spec fn lines_of(logs: Seq<String>) -> Seq<Seq<char>> {
    logs.map_values(|line: String| line@)
}

impl View for ContainerItem {
    type V = ContainerView;

    open spec fn view(&self) -> ContainerView {
        ContainerView {
            id: self.id@,
            name: self.name@,
            image: self.image@,
            command: self.command@,
            state: self.state,
            cpu_stats: self.cpu_stats,
            mem_stats: self.mem_stats,
            mem_limit: self.mem_limit,
            rx: self.rx,
            tx: self.tx,
            logs: lines_of(self.logs@),
            last_updated: self.last_updated,
            retired: self.retired,
            stats_seen: self.stats_seen,
            logs_seen: self.logs_seen,
        }
    }
}

impl ContainerView {
    /// The record of a container that the runtime lists for the first time.
    pub open spec fn fresh(listed: ContainerSummary) -> ContainerView {
        ContainerView {
            id: text_or_empty(listed.id),
            name: text_or_empty(listed.name),
            image: text_or_empty(listed.image),
            command: text_or_empty(listed.command),
            state: listed.listed_state(),
            cpu_stats: None,
            mem_stats: None,
            mem_limit: 0,
            rx: 0,
            tx: 0,
            logs: Seq::<Seq<char>>::empty(),
            last_updated: 0,
            retired: false,
            stats_seen: false,
            logs_seen: false,
        }
    }

    /// The record after the runtime has listed the container again: what the
    /// listing shows is taken over, what was sampled stays.
    pub open spec fn relisted(self, listed: ContainerSummary) -> ContainerView {
        ContainerView {
            name: text_or_empty(listed.name),
            image: text_or_empty(listed.image),
            command: text_or_empty(listed.command),
            state: listed.listed_state(),
            retired: false,
            ..self
        }
    }

    /// The record after a stats sample.
    pub open spec fn sampled(
        self,
        cpu_stats: Option<CpuLoad>,
        mem_stats: Option<u64>,
        mem_limit: u64,
        rx: u64,
        tx: u64,
    ) -> ContainerView {
        ContainerView { cpu_stats, mem_stats, mem_limit, rx, tx, stats_seen: true, ..self }
    }

    /// The record after a batch of log lines that was asked for at `now`.
    pub open spec fn logged(self, lines: Seq<Seq<char>>, now: u64) -> ContainerView {
        ContainerView { logs: self.logs + lines, last_updated: now, logs_seen: true, ..self }
    }
}

} // verus!
