//! What holds of the scheduler whatever the containers and the timing are.

use vstd::prelude::*;

use crate::app_data::container::ContainerView;
use crate::app_data::store::{all_ready, ready, sampled};
use crate::docker_data::binate::Binate;
use crate::docker_data::dispatch::{
    log_keys, seed_tasks, started_once, stats_keys, stats_tasks, stats_tasks_started_once,
};
use crate::docker_data::spawn_id::SpawnKey;
use crate::docker_data::stats::Stats;
use crate::docker_data::task::TaskView;

verus! {

/// A sample of a container that does not run is recorded with no processor
/// load and no traffic, whatever the sample holds.
pub proof fn idle_sample_shows_no_load(items: Seq<ContainerView>, id: Seq<char>, sample: Stats, i: int)
    requires
        0 <= i < items.len(),
        items[i].id == id,
    ensures
        ({
            let update = sample.update(false);
            let after = sampled(
                items,
                id,
                update.cpu_stats,
                update.mem_stats,
                update.mem_limit,
                update.rx,
                update.tx,
            );
            after[i].cpu_stats is None && after[i].rx == 0 && after[i].tx == 0
        }),
{
}

/// Once a stats task of a container is registered in a phase, a second
/// dispatch for the same container in the same phase starts nothing and leaves
/// the registry as it is: no key is ever registered twice.
pub proof fn same_phase_registers_once(registered: Set<SpawnKey>, id: Seq<char>, phase: Binate)
    ensures
        registered.insert(SpawnKey::Stats(id, phase)).contains(SpawnKey::Stats(id, phase)),
        registered.insert(SpawnKey::Stats(id, phase)).insert(SpawnKey::Stats(id, phase))
            == registered.insert(SpawnKey::Stats(id, phase)),
{
    let key = SpawnKey::Stats(id, phase);
    assert(registered.insert(key).insert(key) =~= registered.insert(key));
}

/// A stats task of the one phase does not stand in the way of the other: with
/// no task of the next phase in flight, the dispatch for the next phase starts
/// one, whether or not the task of this phase has ended.
pub proof fn next_phase_is_free(registered: Set<SpawnKey>, id: Seq<char>, phase: Binate)
    requires
        !registered.contains(SpawnKey::Stats(id, phase.flipped())),
    ensures
        !registered.insert(SpawnKey::Stats(id, phase)).contains(
            SpawnKey::Stats(id, phase.flipped()),
        ),
{
}

/// A pass starts nothing for containers whose keys are all registered.
proof fn registered_keys_start_nothing(
    registered: Set<SpawnKey>,
    entries: Seq<(bool, Seq<char>)>,
    phase: Binate,
)
    requires
        forall|i: int|
            0 <= i < entries.len() ==> registered.contains(
                SpawnKey::Stats((#[trigger] entries[i]).1, phase),
            ),
    ensures
        stats_tasks(registered, entries, phase) == Seq::<TaskView>::empty(),
    decreases entries.len(),
{
    if entries.len() > 0 {
        let earlier = entries.drop_last();
        assert forall|i: int| 0 <= i < earlier.len() implies registered.contains(
            SpawnKey::Stats((#[trigger] earlier[i]).1, phase),
        ) by {
            assert(earlier[i] == entries[i]);
        }
        registered_keys_start_nothing(registered, earlier, phase);
        assert(entries.last() == entries[entries.len() - 1]);
    }
}

/// A second pass over the same containers in the same phase, before any task
/// of the first has ended, starts nothing.
pub proof fn same_phase_pass_starts_nothing(
    registered: Set<SpawnKey>,
    entries: Seq<(bool, Seq<char>)>,
    phase: Binate,
)
    ensures
        stats_tasks(registered.union(stats_keys(entries, phase)), entries, phase) == Seq::<
            TaskView,
        >::empty(),
{
    registered_keys_start_nothing(registered.union(stats_keys(entries, phase)), entries, phase);
}

/// What a pass starts does not depend on keys that are none of its own.
proof fn foreign_keys_do_not_matter(
    registered: Set<SpawnKey>,
    foreign: Set<SpawnKey>,
    entries: Seq<(bool, Seq<char>)>,
    phase: Binate,
)
    requires
        forall|i: int|
            0 <= i < entries.len() ==> !foreign.contains(
                SpawnKey::Stats((#[trigger] entries[i]).1, phase),
            ),
    ensures
        stats_tasks(registered.union(foreign), entries, phase) == stats_tasks(
            registered,
            entries,
            phase,
        ),
    decreases entries.len(),
{
    if entries.len() > 0 {
        let earlier = entries.drop_last();
        assert forall|i: int| 0 <= i < earlier.len() implies !foreign.contains(
            SpawnKey::Stats((#[trigger] earlier[i]).1, phase),
        ) by {
            assert(earlier[i] == entries[i]);
        }
        foreign_keys_do_not_matter(registered, foreign, earlier, phase);
        assert(entries.last() == entries[entries.len() - 1]);
    }
}

/// The pass of the next phase starts what it would have started had the pass
/// of this phase not taken place: the tasks of this phase, none of which need
/// have ended, hold none of them back.
pub proof fn next_phase_pass_is_not_held_back(
    registered: Set<SpawnKey>,
    entries: Seq<(bool, Seq<char>)>,
    phase: Binate,
)
    ensures
        stats_tasks(registered.union(stats_keys(entries, phase)), entries, phase.flipped())
            == stats_tasks(registered, entries, phase.flipped()),
{
    foreign_keys_do_not_matter(registered, stats_keys(entries, phase), entries, phase.flipped());
}

/// While the log task of a container is in flight, no dispatch that looks at
/// the registry starts another one for it, and the registry holds its key
/// once: two log tasks of one container never run at the same time.
pub proof fn log_task_has_no_twin(registered: Set<SpawnKey>, id: Seq<char>)
    ensures
        registered.insert(SpawnKey::Log(id)).contains(SpawnKey::Log(id)),
        registered.insert(SpawnKey::Log(id)).insert(SpawnKey::Log(id)) == registered.insert(
            SpawnKey::Log(id),
        ),
{
    let key = SpawnKey::Log(id);
    assert(registered.insert(key).insert(key) =~= registered.insert(key));
}

/// The first seeding starts no log task that has a twin in flight, where the
/// discovery names no container twice and no log task of its containers is
/// registered, as at startup.
pub proof fn seeding_starts_no_twin(
    registered: Set<SpawnKey>,
    entries: Seq<(bool, Seq<char>)>,
    timestamps: bool,
)
    requires
        forall|i: int, j: int|
            0 <= i < j < entries.len() ==> (#[trigger] entries[i]).1 != (#[trigger] entries[j]).1,
        registered.disjoint(log_keys(entries)),
    ensures
        started_once(registered, seed_tasks(entries, timestamps)),
{
    let tasks = seed_tasks(entries, timestamps);
    assert forall|i: int| 0 <= i < tasks.len() implies !registered.contains(
        (#[trigger] tasks[i]).key(),
    ) by {
        assert(tasks[i].key() == SpawnKey::Log(entries[i].1));
        assert(log_keys(entries).contains(tasks[i].key()));
    }
    assert forall|i: int, j: int| 0 <= i < j < tasks.len() implies (#[trigger] tasks[i]).key() != (
    #[trigger] tasks[j]).key() by {
        assert(tasks[i].key() == SpawnKey::Log(entries[i].1));
        assert(tasks[j].key() == SpawnKey::Log(entries[j].1));
    }
}

/// The initialisation is not over while one container of the first discovery
/// lacks its stats sample or its batch of log lines.
pub proof fn barrier_waits_for_each(items: Seq<ContainerView>, ids: Seq<Seq<char>>, k: int)
    requires
        0 <= k < ids.len(),
        !ready(items, ids[k]),
    ensures
        !all_ready(items, ids),
{
}

/// With no container discovered there is nothing to wait for.
pub proof fn barrier_open_without_containers(items: Seq<ContainerView>)
    ensures
        all_ready(items, Seq::<Seq<char>>::empty()),
{
}

/// The stats tasks of container `id` among the registered keys.
pub open spec fn stats_in_flight(registered: Set<SpawnKey>, id: Seq<char>) -> Set<SpawnKey> {
    registered.filter(|key: SpawnKey| key is Stats && key.container() == id)
}

/// However often a container is dispatched, at most two stats tasks of it are
/// in flight: one for each phase.
pub proof fn at_most_two_stats_tasks(registered: Set<SpawnKey>, id: Seq<char>)
    requires
        registered.finite(),
    ensures
        stats_in_flight(registered, id).len() <= 2,
{
    let both = Set::<SpawnKey>::empty().insert(SpawnKey::Stats(id, Binate::One)).insert(
        SpawnKey::Stats(id, Binate::Two),
    );
    assert forall|key: SpawnKey| stats_in_flight(registered, id).contains(key) implies both.contains(
        key,
    ) by {
        match key {
            SpawnKey::Stats(container, phase) => {
                assert(container == id);
                match phase {
                    Binate::One => {},
                    Binate::Two => {},
                }
            },
            SpawnKey::Log(container) => {},
        }
    }
    assert(stats_in_flight(registered, id).subset_of(both));
    vstd::set_lib::lemma_len_subset(stats_in_flight(registered, id), both);
}

/// At startup, with nothing registered and no container discovered twice, the
/// first stats pass and the seeding of the logs together start no task that
/// has a twin in flight.
pub proof fn first_dispatch_starts_no_twin(
    entries: Seq<(bool, Seq<char>)>,
    phase: Binate,
    timestamps: bool,
)
    requires
        forall|i: int, j: int|
            0 <= i < j < entries.len() ==> (#[trigger] entries[i]).1 != (#[trigger] entries[j]).1,
    ensures
        started_once(
            Set::<SpawnKey>::empty(),
            stats_tasks(Set::<SpawnKey>::empty(), entries, phase) + seed_tasks(entries, timestamps),
        ),
{
    let nothing = Set::<SpawnKey>::empty();
    let first = stats_tasks(nothing, entries, phase);
    let second = seed_tasks(entries, timestamps);
    stats_tasks_started_once(nothing, entries, phase);
    seeding_starts_no_twin(nothing, entries, timestamps);
    assert forall|i: int, j: int| 0 <= i < j < (first + second).len() implies (#[trigger] (first
        + second)[i]).key() != (#[trigger] (first + second)[j]).key() by {
        if j < first.len() {
        } else if i < first.len() {
            assert(stats_keys(entries, phase).contains(first[i].key()));
            assert(second[j - first.len()].key() == SpawnKey::Log(entries[j - first.len()].1));
        } else {
            assert((first + second)[i] == second[i - first.len()]);
            assert((first + second)[j] == second[j - first.len()]);
        }
    }
}

} // verus!
