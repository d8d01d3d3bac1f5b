//! What a dispatch pass starts and registers, stated over the keys that are
//! registered and the containers that the pass goes through.

use vstd::prelude::*;

use crate::app_data::container::{text_or_empty, ContainerSummary, ContainerView};
use crate::app_data::ContainerId;
use crate::docker_data::binate::Binate;
use crate::docker_data::spawn_id::SpawnKey;
use crate::docker_data::task::TaskView;

verus! {

/// The command with which the monitor itself is started inside a container.
pub const ENTRY_POINT: &'static str = "./start_oxker.sh";

/// The containers of a pass: whether each is worth polling, and its
/// identifier as text.
pub open spec fn entries_of(all_ids: Seq<(bool, ContainerId)>) -> Seq<(bool, Seq<char>)> {
    all_ids.map_values(|entry: (bool, ContainerId)| (entry.0, entry.1@))
}

/// Whether a listed container is the monitor itself.
pub open spec fn is_self(listed: ContainerSummary) -> bool {
    listed.command matches Some(command) && ENTRY_POINT@.is_prefix_of(command@)
}

/// Whether a listed container is taken up: it has an identifier, and it is not
/// the monitor itself unless that is to be shown.
pub open spec fn is_shown(listed: ContainerSummary, show_self: bool) -> bool {
    listed.id is Some && (show_self || !is_self(listed))
}

/// The entries of a listing that are taken up, in their order.
pub open spec fn shown(listed: Seq<ContainerSummary>, show_self: bool) -> Seq<ContainerSummary> {
    listed.filter(|entry: ContainerSummary| is_shown(entry, show_self))
}

/// What a pass needs of each listed container.
pub open spec fn polled(listed: Seq<ContainerSummary>) -> Seq<(bool, Seq<char>)> {
    listed.map_values(
        |entry: ContainerSummary| (entry.listed_state().pollable(), text_or_empty(entry.id)),
    )
}

/// The keys of the stats tasks of the given containers in one phase.
pub open spec fn stats_keys(entries: Seq<(bool, Seq<char>)>, phase: Binate) -> Set<SpawnKey> {
    Set::new(
        |key: SpawnKey|
            exists|i: int|
                0 <= i < entries.len() && key == SpawnKey::Stats((#[trigger] entries[i]).1, phase),
    )
}

/// The keys of the log tasks of the given containers.
pub open spec fn log_keys(entries: Seq<(bool, Seq<char>)>) -> Set<SpawnKey> {
    Set::new(
        |key: SpawnKey|
            exists|i: int| 0 <= i < entries.len() && key == SpawnKey::Log((#[trigger] entries[i]).1),
    )
}

/// The stats tasks that a pass in `phase` starts: one for each container, in
/// order, whose key is not registered and which no earlier entry of the pass
/// names.
pub open spec fn stats_tasks(
    registered: Set<SpawnKey>,
    entries: Seq<(bool, Seq<char>)>,
    phase: Binate,
) -> Seq<TaskView>
    decreases entries.len(),
{
    if entries.len() == 0 {
        Seq::<TaskView>::empty()
    } else {
        let earlier = entries.drop_last();
        let entry = entries.last();
        let key = SpawnKey::Stats(entry.1, phase);
        if registered.contains(key) || stats_keys(earlier, phase).contains(key) {
            stats_tasks(registered, earlier, phase)
        } else {
            stats_tasks(registered, earlier, phase).push(
                TaskView::Stats { id: entry.1, is_running: entry.0, binate: phase },
            )
        }
    }
}

/// The log tasks of the first seeding: for each container one that reads the
/// log from its beginning.
pub open spec fn seed_tasks(entries: Seq<(bool, Seq<char>)>, timestamps: bool) -> Seq<TaskView> {
    entries.map_values(
        |entry: (bool, Seq<char>)| TaskView::Log { id: entry.1, timestamps, since: 0 },
    )
}

/// The record whose log is looked at, if there is one.
pub open spec fn selected_item(items: Seq<ContainerView>, selected: Option<usize>) -> Option<
    ContainerView,
> {
    match selected {
        Some(index) => if index < items.len() {
            Some(items[index as int])
        } else {
            None
        },
        None => None,
    }
}

/// The key of the log task of the container whose log is looked at.
pub open spec fn selected_key(items: Seq<ContainerView>, selected: Option<usize>) -> Set<SpawnKey> {
    match selected_item(items, selected) {
        Some(item) => Set::<SpawnKey>::empty().insert(SpawnKey::Log(item.id)),
        None => Set::<SpawnKey>::empty(),
    }
}

/// The log task that a refresh starts: that of the container whose log is
/// looked at, from where its log was last read, unless one is in flight.
pub open spec fn selected_task(
    registered: Set<SpawnKey>,
    items: Seq<ContainerView>,
    selected: Option<usize>,
    timestamps: bool,
) -> Seq<TaskView> {
    match selected_item(items, selected) {
        Some(item) => if registered.contains(SpawnKey::Log(item.id)) {
            Seq::<TaskView>::empty()
        } else {
            Seq::<TaskView>::empty().push(
                TaskView::Log { id: item.id, timestamps, since: item.last_updated },
            )
        },
        None => Seq::<TaskView>::empty(),
    }
}

/// Whether each task was started under a key that was free, and no two under
/// the same key: no task has a twin in flight.
pub open spec fn started_once(registered: Set<SpawnKey>, tasks: Seq<TaskView>) -> bool {
    &&& forall|i: int| 0 <= i < tasks.len() ==> !registered.contains((#[trigger] tasks[i]).key())
    &&& forall|i: int, j: int|
        0 <= i < j < tasks.len() ==> (#[trigger] tasks[i]).key() != (#[trigger] tasks[j]).key()
}

/// A stats pass starts no task under a key that is registered, no two tasks
/// under one key, and every task under a stats key of the pass's phase.
pub proof fn stats_tasks_started_once(
    registered: Set<SpawnKey>,
    entries: Seq<(bool, Seq<char>)>,
    phase: Binate,
)
    ensures
        started_once(registered, stats_tasks(registered, entries, phase)),
        forall|i: int|
            0 <= i < stats_tasks(registered, entries, phase).len() ==> stats_keys(
                entries,
                phase,
            ).contains((#[trigger] stats_tasks(registered, entries, phase)[i]).key()),
    decreases entries.len(),
{
    if entries.len() > 0 {
        let earlier = entries.drop_last();
        let entry = entries.last();
        let key = SpawnKey::Stats(entry.1, phase);
        stats_tasks_started_once(registered, earlier, phase);
        let before = stats_tasks(registered, earlier, phase);
        let all = stats_tasks(registered, entries, phase);
        assert forall|i: int| 0 <= i < before.len() implies stats_keys(entries, phase).contains(
            (#[trigger] before[i]).key(),
        ) by {
            let w = choose|w: int|
                0 <= w < earlier.len() && before[i].key() == SpawnKey::Stats(
                    (#[trigger] earlier[w]).1,
                    phase,
                );
            assert(entries[w] == earlier[w]);
        }
        assert(stats_keys(entries, phase).contains(key)) by {
            assert(entries[entries.len() - 1] == entry);
        }
    }
}

} // verus!
