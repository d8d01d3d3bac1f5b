//! The keys under which background tasks are registered.

use vstd::prelude::*;
use vstd::std_specs::cmp::PartialEqSpecImpl;

use crate::app_data::ContainerId;
use crate::docker_data::binate::Binate;

verus! {

/// Key of a background task. Stats tasks carry the phase they were started in,
/// so that the tasks of two overlapping cycles have different keys; a container
/// has one key for its log task.
#[derive(Debug, Eq, Hash)]
pub enum SpawnId {
    Stats((ContainerId, Binate)),
    Log(ContainerId),
}

/// What a `SpawnId` stands for: the container's identifier as text, and the
/// phase where there is one.
pub enum SpawnKey {
    Stats(Seq<char>, Binate),
    Log(Seq<char>),
}

impl View for SpawnId {
    type V = SpawnKey;

    open spec fn view(&self) -> SpawnKey {
        match self {
            SpawnId::Stats(pair) => SpawnKey::Stats(pair.0@, pair.1),
            SpawnId::Log(id) => SpawnKey::Log(id@),
        }
    }
}

impl DeepView for SpawnId {
    type V = SpawnKey;

    open spec fn deep_view(&self) -> SpawnKey {
        self@
    }
}

impl SpawnId {
    /// The container that the task works on.
    pub fn container(&self) -> (id: &ContainerId)
        ensures
            id@ == self@.container(),
    {
        match self {
            SpawnId::Stats(pair) => &pair.0,
            SpawnId::Log(id) => id,
        }
    }
}

impl SpawnKey {
    /// The container that the task works on.
    pub open spec fn container(self) -> Seq<char> {
        match self {
            SpawnKey::Stats(id, _) => id,
            SpawnKey::Log(id) => id,
        }
    }
}

impl Clone for SpawnId {
    fn clone(&self) -> (copy: Self)
        ensures
            copy@ == self@,
    {
        match self {
            SpawnId::Stats(pair) => SpawnId::Stats((pair.0.clone(), pair.1)),
            SpawnId::Log(id) => SpawnId::Log(id.clone()),
        }
    }
}

impl PartialEq for SpawnId {
    fn eq(&self, other: &Self) -> (r: bool) {
        match (self, other) {
            (SpawnId::Stats(a), SpawnId::Stats(b)) => a.0 == b.0 && a.1 == b.1,
            (SpawnId::Log(a), SpawnId::Log(b)) => a == b,
            _ => false,
        }
    }
}

impl PartialEqSpecImpl for SpawnId {
    open spec fn obeys_eq_spec() -> bool {
        true
    }

    open spec fn eq_spec(&self, other: &Self) -> bool {
        self@ == other@
    }
}

} // verus!
