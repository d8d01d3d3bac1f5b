//! The scheduler: which background work runs, and when.

pub mod binate;
pub mod dispatch;
pub mod laws;
pub mod message;
pub mod spawn_id;
pub mod spawns;
pub mod stats;
pub mod task;

pub use binate::Binate;
pub use message::{DockerMessage, Request, RequestView};
pub use spawn_id::{SpawnId, SpawnKey};
pub use spawns::Spawns;
pub use stats::{CpuLoad, CpuStats, CpuUsage, MemoryStats, NetworkStats, Stats, StatsUpdate};
pub use task::{LogsOptions, StatsOptions, Task, TaskView};

use vstd::prelude::*;

use crate::app_data::container::{lines_of, ContainerSummary};
use crate::app_data::store::{all_ready, ids_of, logged, merged, sampled};
use crate::app_data::{AppData, ContainerId};
use crate::app_error::{AppError, DockerControls};
use crate::docker_data::dispatch::{
    entries_of, log_keys, polled, seed_tasks, selected_key, selected_task, shown,
    started_once, stats_keys, stats_tasks, stats_tasks_started_once, ENTRY_POINT,
};
use crate::ui::{GuiState, Status};
use crate::docker_data::task::tasks_of;
use crate::parse_args::CliArgs;
use crate::text::{blank, is_blank, starts_with};

verus! {

/// The scheduler's own state: the settings, the phase of the next stats
/// cycle, whether the first samples and logs have all arrived, and whether
/// the monitor is still meant to run.
#[derive(Debug)]
pub struct DockerData {
    args: CliArgs,
    binate: Binate,
    initialised: bool,
    is_running: bool,
}

/// The lines of a log batch that are kept: those that are not blank.
pub open spec fn kept_lines(lines: Seq<Seq<char>>) -> Seq<Seq<char>> {
    lines.filter(|line: Seq<char>| !blank(line))
}

impl DockerData {
    /// The settings.
    pub closed spec fn settings(&self) -> CliArgs {
        self.args
    }

    /// The phase of the next stats cycle.
    pub closed spec fn phase(&self) -> Binate {
        self.binate
    }

    /// Whether the first samples and logs have all arrived.
    pub closed spec fn ready(&self) -> bool {
        self.initialised
    }

    /// Whether the monitor is still meant to run.
    pub closed spec fn running(&self) -> bool {
        self.is_running
    }

    /// The processor load that a sample shows. Where the container's and the
    /// system's time both grew between the two readings, the load in percent
    /// is `cpu_delta * online_cpus * 100 / system_delta`; else it is zero.
    pub fn calculate_usage(stats: &Stats) -> (load: CpuLoad)
        ensures
            load == stats.load(),
            stats.cpu_delta() > 0 && stats.system_delta() > 0 ==> load.numerator()
                == stats.cpu_delta() * stats.online_cpus() * 100 && load.denominator()
                == stats.system_delta(),
            !(stats.cpu_delta() > 0 && stats.system_delta() > 0) ==> load.numerator() == 0,
    {
        let previous_cpu = stats.precpu_stats.cpu_usage.total_usage;
        let current_cpu = stats.cpu_stats.cpu_usage.total_usage;
        match (stats.cpu_stats.system_cpu_usage, stats.precpu_stats.system_cpu_usage) {
            (Some(cpu_stats_usage), Some(precpu_stats_usage)) => {
                if cpu_stats_usage > precpu_stats_usage && current_cpu > previous_cpu {
                    let online_cpus: u64 = match stats.cpu_stats.online_cpus {
                        Some(count) => count,
                        None => match &stats.cpu_stats.cpu_usage.percpu_usage {
                            Some(per_core) => per_core.len() as u64,
                            None => 0,
                        },
                    };
                    return CpuLoad {
                        cpu_delta: current_cpu - previous_cpu,
                        system_delta: cpu_stats_usage - precpu_stats_usage,
                        online_cpus,
                    };
                }
            },
            _ => {},
        }
        CpuLoad { cpu_delta: 0, system_delta: 1, online_cpus: 0 }
    }

    /// What a sample tells the model of a container that runs, or does not.
    pub fn stats_update(stats: &Stats, is_running: bool) -> (update: StatsUpdate)
        ensures
            update == stats.update(is_running),
            !is_running ==> update.cpu_stats is None && update.mem_stats is None && update.rx == 0
                && update.tx == 0,
    {
        let mem_limit = match stats.memory_stats.limit {
            Some(limit) => limit,
            None => 0,
        };
        if is_running {
            let mem_stat = match stats.memory_stats.usage {
                Some(usage) => usage,
                None => 0,
            };
            let (rx, tx) = match &stats.networks {
                Some(networks) => if networks.len() > 0 {
                    (networks[0].rx_bytes, networks[0].tx_bytes)
                } else {
                    (0, 0)
                },
                None => (0, 0),
            };
            StatsUpdate {
                cpu_stats: Some(Self::calculate_usage(stats)),
                mem_stats: Some(mem_stat),
                mem_limit,
                rx,
                tx,
            }
        } else {
            StatsUpdate { cpu_stats: None, mem_stats: None, mem_limit, rx: 0, tx: 0 }
        }
    }

    /// The end of a stats task. The task takes its key out of the registry,
    /// whether or not the runtime gave a sample, and then records the sample
    /// if there is one.
    pub fn update_container_stat(
        id: &ContainerId,
        app_data: &mut AppData,
        is_running: bool,
        spawns: &mut Spawns,
        spawn_id: &SpawnId,
        stats: Option<Stats>,
    )
        ensures
            final(spawns)@ == old(spawns)@.remove(spawn_id@),
            final(app_data).items() == match stats {
                Some(sample) => sampled(
                    old(app_data).items(),
                    id@,
                    sample.update(is_running).cpu_stats,
                    sample.update(is_running).mem_stats,
                    sample.update(is_running).mem_limit,
                    sample.update(is_running).rx,
                    sample.update(is_running).tx,
                ),
                None => old(app_data).items(),
            },
            final(app_data).error() == old(app_data).error(),
            final(app_data).selected() == old(app_data).selected(),
            final(app_data).settings() == old(app_data).settings(),
    {
        spawns.remove(spawn_id);
        match stats {
            Some(sample) => {
                let update = Self::stats_update(&sample, is_running);
                app_data.update_stats(
                    id,
                    update.cpu_stats,
                    update.mem_stats,
                    update.mem_limit,
                    update.rx,
                    update.tx,
                );
            },
            None => {},
        }
    }

    /// The end of a log task, once the runtime has closed the stream. The task
    /// takes its key out of the registry and then appends the lines that are
    /// not blank to the container's log, noting that the log was read at `now`.
    pub fn update_log(
        id: &ContainerId,
        app_data: &mut AppData,
        spawns: &mut Spawns,
        lines: Vec<String>,
        now: u64,
    )
        ensures
            final(spawns)@ == old(spawns)@.remove(SpawnKey::Log(id@)),
            final(app_data).items() == logged(
                old(app_data).items(),
                id@,
                kept_lines(lines_of(lines@)),
                now,
            ),
            final(app_data).error() == old(app_data).error(),
            final(app_data).selected() == old(app_data).selected(),
            final(app_data).settings() == old(app_data).settings(),
    {
        let mut output: Vec<String> = Vec::new();
        let mut k: usize = 0;
        while k < lines.len()
            invariant
                k <= lines@.len(),
                lines_of(output@) == kept_lines(lines_of(lines@).take(k as int)),
            decreases lines@.len() - k,
        {
            let ghost done = lines_of(lines@).take(k as int + 1);
            proof {
                reveal(Seq::filter);
                assert(done.drop_last() =~= lines_of(lines@).take(k as int));
                assert(done.last() == lines@[k as int]@);
            }
            if !is_blank(lines[k].as_str()) {
                let ghost before = lines_of(output@);
                output.push(lines[k].clone());
                assert(lines_of(output@) =~= before.push(lines@[k as int]@));
            }
            k += 1;
        }
        assert(lines_of(lines@).take(k as int) =~= lines_of(lines@));
        let key = SpawnId::Log(id.clone());
        spawns.remove(&key);
        app_data.update_log_by_id(output, id, now);
    }

    /// One stats pass over the containers of a discovery: for each, a stats
    /// task in the current phase is registered and handed out to be started,
    /// unless one is in flight under the same key. Then the phase flips, so
    /// that the next pass does not collide with the tasks of this one.
    pub fn update_all_container_stats(
        &mut self,
        spawns: &mut Spawns,
        all_ids: &Vec<(bool, ContainerId)>,
    ) -> (tasks: Vec<Task>)
        ensures
            tasks_of(tasks@) == stats_tasks(
                old(spawns)@,
                entries_of(all_ids@),
                old(self).phase(),
            ),
            final(spawns)@ == old(spawns)@.union(
                stats_keys(entries_of(all_ids@), old(self).phase()),
            ),
            started_once(old(spawns)@, tasks_of(tasks@)),
            final(self).phase() == old(self).phase().flipped(),
            final(self).settings() == old(self).settings(),
            final(self).ready() == old(self).ready(),
            final(self).running() == old(self).running(),
    {
        let ghost registered = spawns@;
        let ghost entries = entries_of(all_ids@);
        let binate = self.binate;
        let mut tasks: Vec<Task> = Vec::new();
        let mut k: usize = 0;
        assert(stats_keys(entries.take(0), binate) =~= Set::<SpawnKey>::empty());
        assert(registered.union(Set::<SpawnKey>::empty()) =~= registered);
        while k < all_ids.len()
            invariant
                k <= all_ids@.len(),
                entries == entries_of(all_ids@),
                spawns@ == registered.union(stats_keys(entries.take(k as int), binate)),
                tasks_of(tasks@) == stats_tasks(registered, entries.take(k as int), binate),
            decreases all_ids@.len() - k,
        {
            let is_running = all_ids[k].0;
            let id = &all_ids[k].1;
            let key = SpawnId::Stats((id.clone(), binate));
            let ghost earlier = entries.take(k as int);
            let ghost done = entries.take(k as int + 1);
            let started = spawns.insert_if_absent(key);
            proof {
                assert(done.drop_last() =~= earlier);
                assert(done.last() == (is_running, id@));
                assert(stats_keys(done, binate) =~= stats_keys(earlier, binate).insert(key@)) by {
                    assert forall|other: SpawnKey|
                        stats_keys(done, binate).contains(other) implies stats_keys(
                        earlier,
                        binate,
                    ).insert(key@).contains(other) by {
                        let w = choose|w: int|
                            0 <= w < done.len() && other == SpawnKey::Stats(
                                (#[trigger] done[w]).1,
                                binate,
                            );
                        if w < k {
                            assert(earlier[w] == done[w]);
                        }
                    }
                    assert forall|other: SpawnKey|
                        stats_keys(earlier, binate).insert(key@).contains(
                            other,
                        ) implies stats_keys(done, binate).contains(other) by {
                        if other == key@ {
                            assert(done[k as int].1 == id@);
                        } else {
                            let w = choose|w: int|
                                0 <= w < earlier.len() && other == SpawnKey::Stats(
                                    (#[trigger] earlier[w]).1,
                                    binate,
                                );
                            assert(done[w] == earlier[w]);
                        }
                    }
                }
                assert(spawns@ =~= registered.union(stats_keys(done, binate)));
            }
            if started {
                let ghost before = tasks_of(tasks@);
                tasks.push(Task::Stats { id: id.clone(), is_running, binate });
                assert(tasks_of(tasks@) =~= before.push(
                    TaskView::Stats { id: id@, is_running, binate },
                ));
            }
            k += 1;
        }
        assert(entries.take(k as int) =~= entries);
        proof {
            stats_tasks_started_once(registered, entries, binate);
        }
        self.binate = self.binate.toggle();
        tasks
    }

    /// Takes up a listing of the runtime. The entries without identifier are
    /// dropped, and so is the monitor's own container unless it is to be
    /// shown; the rest is merged into the model. Each container that was taken
    /// up is returned, in order, with whether it is worth polling.
    pub fn update_all_containers(&self, app_data: &mut AppData, containers: &Vec<ContainerSummary>) -> (all_ids:
        Vec<(bool, ContainerId)>)
        ensures
            entries_of(all_ids@) == polled(shown(containers@, self.settings().show_self)),
            final(app_data).items() == merged(
                old(app_data).items(),
                shown(containers@, self.settings().show_self),
            ),
            final(app_data).error() == old(app_data).error(),
            final(app_data).selected() == old(app_data).selected(),
            final(app_data).settings() == old(app_data).settings(),
    {
        let show_self = self.args.show_self;
        let mut output: Vec<ContainerSummary> = Vec::new();
        let mut all_ids: Vec<(bool, ContainerId)> = Vec::new();
        let mut k: usize = 0;
        proof {
            reveal(Seq::filter);
        }
        assert(entries_of(all_ids@) =~= polled(output@));
        while k < containers.len()
            invariant
                k <= containers@.len(),
                output@ == shown(containers@.take(k as int), show_self),
                entries_of(all_ids@) == polled(output@),
            decreases containers@.len() - k,
        {
            let entry = &containers[k];
            let ghost done = containers@.take(k as int + 1);
            proof {
                reveal(Seq::filter);
                assert(done.drop_last() =~= containers@.take(k as int));
                assert(done.last() == *entry);
            }
            match &entry.id {
                Some(text) => {
                    let own = match &entry.command {
                        Some(command) => starts_with(command.as_str(), ENTRY_POINT),
                        None => false,
                    };
                    if show_self || !own {
                        let ghost kept = output@;
                        let ghost listed = entries_of(all_ids@);
                        let id = ContainerId::from(text.clone());
                        proof {
                            ContainerId::from_spec_view(*text);
                        }
                        all_ids.push((entry.state().is_pollable(), id));
                        output.push(copy_summary(entry));
                        assert(output@ =~= kept.push(*entry));
                        assert(entries_of(all_ids@) =~= listed.push(
                            (entry.listed_state().pollable(), text@),
                        ));
                        assert(entries_of(all_ids@) =~= polled(output@));
                    }
                },
                None => {},
            }
            k += 1;
        }
        assert(containers@.take(k as int) =~= containers@);
        app_data.update_containers(&output);
        all_ids
    }

    /// The first seeding of the logs: for each container of the discovery a
    /// log task that reads from the beginning is registered and handed out to
    /// be started, whether or not one is registered already.
    pub fn init_all_logs(&self, spawns: &mut Spawns, all_ids: &Vec<(bool, ContainerId)>) -> (tasks:
        Vec<Task>)
        ensures
            tasks_of(tasks@) == seed_tasks(entries_of(all_ids@), self.settings().timestamp),
            final(spawns)@ == old(spawns)@.union(log_keys(entries_of(all_ids@))),
    {
        let ghost registered = spawns@;
        let ghost entries = entries_of(all_ids@);
        let timestamps = self.args.timestamp;
        let mut tasks: Vec<Task> = Vec::new();
        let mut k: usize = 0;
        assert(log_keys(entries.take(0)) =~= Set::<SpawnKey>::empty());
        assert(registered.union(Set::<SpawnKey>::empty()) =~= registered);
        assert(tasks_of(tasks@) =~= seed_tasks(entries.take(0), timestamps));
        while k < all_ids.len()
            invariant
                k <= all_ids@.len(),
                entries == entries_of(all_ids@),
                spawns@ == registered.union(log_keys(entries.take(k as int))),
                tasks_of(tasks@) == seed_tasks(entries.take(k as int), timestamps),
            decreases all_ids@.len() - k,
        {
            let id = &all_ids[k].1;
            let ghost earlier = entries.take(k as int);
            let ghost done = entries.take(k as int + 1);
            let ghost before = tasks_of(tasks@);
            let key = SpawnId::Log(id.clone());
            spawns.insert(key);
            tasks.push(Task::Log { id: id.clone(), timestamps, since: 0 });
            proof {
                assert(done[k as int].1 == id@);
                assert(log_keys(done) =~= log_keys(earlier).insert(key@)) by {
                    assert forall|other: SpawnKey| log_keys(done).contains(other) implies log_keys(
                        earlier,
                    ).insert(key@).contains(other) by {
                        let w = choose|w: int|
                            0 <= w < done.len() && other == SpawnKey::Log((#[trigger] done[w]).1);
                        if w < k {
                            assert(earlier[w] == done[w]);
                        }
                    }
                    assert forall|other: SpawnKey|
                        log_keys(earlier).insert(key@).contains(other) implies log_keys(
                        done,
                    ).contains(other) by {
                        if other == key@ {
                            assert(done[k as int].1 == id@);
                        } else {
                            let w = choose|w: int|
                                0 <= w < earlier.len() && other == SpawnKey::Log(
                                    (#[trigger] earlier[w]).1,
                                );
                            assert(done[w] == earlier[w]);
                        }
                    }
                }
                assert(spawns@ =~= registered.union(log_keys(done)));
                assert(tasks_of(tasks@) =~= before.push(
                    TaskView::Log { id: id@, timestamps, since: 0 },
                ));
                assert(tasks_of(tasks@) =~= seed_tasks(done, timestamps));
            }
            k += 1;
        }
        assert(entries.take(k as int) =~= entries);
        tasks
    }

    /// One refresh. The listing is taken up; for the container whose log is
    /// looked at, a log task that reads on from where the log was last read
    /// is registered and handed out, unless one is in flight; then comes the
    /// stats pass with its flip of the phase.
    pub fn update_everything(
        &mut self,
        app_data: &mut AppData,
        spawns: &mut Spawns,
        containers: &Vec<ContainerSummary>,
    ) -> (tasks: Vec<Task>)
        ensures
            final(app_data).items() == merged(
                old(app_data).items(),
                shown(containers@, old(self).settings().show_self),
            ),
            final(app_data).error() == old(app_data).error(),
            final(app_data).selected() == old(app_data).selected(),
            final(app_data).settings() == old(app_data).settings(),
            tasks_of(tasks@) == selected_task(
                old(spawns)@,
                final(app_data).items(),
                old(app_data).selected(),
                old(self).settings().timestamp,
            ) + stats_tasks(
                old(spawns)@.union(selected_key(final(app_data).items(), old(app_data).selected())),
                polled(shown(containers@, old(self).settings().show_self)),
                old(self).phase(),
            ),
            final(spawns)@ == old(spawns)@.union(
                selected_key(final(app_data).items(), old(app_data).selected()),
            ).union(
                stats_keys(
                    polled(shown(containers@, old(self).settings().show_self)),
                    old(self).phase(),
                ),
            ),
            started_once(old(spawns)@, tasks_of(tasks@)),
            final(self).phase() == old(self).phase().flipped(),
            final(self).settings() == old(self).settings(),
            final(self).ready() == old(self).ready(),
            final(self).running() == old(self).running(),
    {
        let ghost registered = spawns@;
        let all_ids = self.update_all_containers(app_data, containers);
        let ghost entries = entries_of(all_ids@);
        let mut tasks: Vec<Task> = Vec::new();
        assert(tasks_of(tasks@) =~= Seq::<TaskView>::empty());
        match app_data.get_selected_log_index() {
            Some(index) => {
                match app_data.get_container(index) {
                    Some(container) => {
                        if spawns.insert_if_absent(SpawnId::Log(container.id.clone())) {
                            tasks.push(
                                Task::Log {
                                    id: container.id.clone(),
                                    timestamps: self.args.timestamp,
                                    since: container.last_updated,
                                },
                            );
                            assert(tasks_of(tasks@) =~= selected_task(
                                registered,
                                app_data.items(),
                                app_data.selected(),
                                self.args.timestamp,
                            ));
                        }
                    },
                    None => {},
                }
            },
            None => {},
        }
        assert(spawns@ =~= registered.union(selected_key(app_data.items(), app_data.selected())));
        let ghost first = tasks_of(tasks@);
        let ghost midway = spawns@;
        let mut stats = self.update_all_container_stats(spawns, &all_ids);
        let ghost second = tasks_of(stats@);
        tasks.append(&mut stats);
        proof {
            assert(tasks_of(tasks@) =~= first + second);
            stats_tasks_started_once(midway, entries, old(self).phase());
            assert forall|i: int| 0 <= i < second.len() implies !registered.contains(
                (#[trigger] second[i]).key(),
            ) by {
                assert(!midway.contains(second[i].key()));
            }
            assert forall|i: int, j: int| 0 <= i < j < (first + second).len() implies (#[trigger] (first
                + second)[i]).key() != (#[trigger] (first + second)[j]).key() by {
                if i < first.len() {
                    assert(stats_keys(entries, old(self).phase()).contains(
                        second[j - first.len()].key(),
                    ));
                } else {
                    assert((first + second)[i] == second[i - first.len()]);
                    assert((first + second)[j] == second[j - first.len()]);
                }
            }
            assert forall|i: int| 0 <= i < (first + second).len() implies !registered.contains(
                (#[trigger] (first + second)[i]).key(),
            ) by {
                if i >= first.len() {
                    assert((first + second)[i] == second[i - first.len()]);
                }
            }
        }
        tasks
    }

    /// One tick of the loading sign on behalf of operation `loading_uuid`.
    pub fn loading_spin(gui_state: &mut GuiState, loading_uuid: u128)
        ensures
            final(gui_state).loading() == old(gui_state).loading().insert(loading_uuid),
            final(gui_state).frame() == GuiState::next_frame(old(gui_state).frame()),
            final(gui_state).status() == old(gui_state).status(),
    {
        gui_state.next_loading(loading_uuid);
    }

    /// The loading sign no longer stands for operation `loading_uuid`.
    pub fn stop_loading_spin(gui_state: &mut GuiState, loading_uuid: u128)
        ensures
            final(gui_state).loading() == old(gui_state).loading().remove(loading_uuid),
            final(gui_state).frame() == old(gui_state).frame(),
            final(gui_state).status() == old(gui_state).status(),
    {
        gui_state.remove_loading(loading_uuid);
    }

    /// The start of the initialisation: the `Init` flag is raised. The token
    /// that comes back is the one under which the loading sign is to be shown
    /// until the initialisation is over.
    pub fn begin_initialise(gui_state: &mut GuiState) -> (loading_uuid: u128)
        ensures
            final(gui_state).status() == old(gui_state).status().insert(Status::Init),
            final(gui_state).loading() == old(gui_state).loading(),
            final(gui_state).frame() == old(gui_state).frame(),
    {
        gui_state.status_push(Status::Init);
        new_uuid()
    }

    /// The first discovery. The listing is taken up, and every container of
    /// it gets a stats task and a log task that reads from the beginning. With
    /// no container there is nothing to wait for, and the initialisation is
    /// over at once; else it is over when `check_initialised` says so.
    pub fn initialise_container_data(
        &mut self,
        app_data: &mut AppData,
        gui_state: &mut GuiState,
        spawns: &mut Spawns,
        containers: &Vec<ContainerSummary>,
        loading_uuid: u128,
    ) -> (started: (Vec<(bool, ContainerId)>, Vec<Task>))
        ensures
            entries_of(started.0@) == polled(shown(containers@, old(self).settings().show_self)),
            final(app_data).items() == merged(
                old(app_data).items(),
                shown(containers@, old(self).settings().show_self),
            ),
            final(app_data).error() == old(app_data).error(),
            final(app_data).selected() == old(app_data).selected(),
            final(app_data).settings() == old(app_data).settings(),
            tasks_of(started.1@) == stats_tasks(
                old(spawns)@,
                entries_of(started.0@),
                old(self).phase(),
            ) + seed_tasks(entries_of(started.0@), old(self).settings().timestamp),
            final(spawns)@ == old(spawns)@.union(
                stats_keys(entries_of(started.0@), old(self).phase()),
            ).union(log_keys(entries_of(started.0@))),
            final(self).ready() == (old(self).ready() || started.0@.len() == 0),
            final(self).ready() ==> final(gui_state).status() == old(gui_state).status().remove(
                Status::Init,
            ) && final(gui_state).loading() == old(gui_state).loading().remove(loading_uuid),
            !final(self).ready() ==> final(gui_state).status() == old(gui_state).status()
                && final(gui_state).loading() == old(gui_state).loading(),
            final(gui_state).frame() == old(gui_state).frame(),
            final(self).phase() == old(self).phase().flipped(),
            final(self).settings() == old(self).settings(),
            final(self).running() == old(self).running(),
    {
        let all_ids = self.update_all_containers(app_data, containers);
        let mut tasks = self.update_all_container_stats(spawns, &all_ids);
        let ghost first = tasks_of(tasks@);
        let mut logs = self.init_all_logs(spawns, &all_ids);
        let ghost second = tasks_of(logs@);
        tasks.append(&mut logs);
        assert(tasks_of(tasks@) =~= first + second);
        if all_ids.len() == 0 {
            self.initialised = true;
        }
        if self.initialised {
            gui_state.status_del(Status::Init);
            Self::stop_loading_spin(gui_state, loading_uuid);
        }
        (all_ids, tasks)
    }

    /// One look at whether the initialisation is over. It is over once every
    /// container of the first discovery has a stats sample and a batch of log
    /// lines on record, and then stays so: the `Init` flag is lowered and the
    /// loading sign released. Until then nothing changes.
    pub fn check_initialised(
        &mut self,
        app_data: &AppData,
        gui_state: &mut GuiState,
        all_ids: &Vec<(bool, ContainerId)>,
        loading_uuid: u128,
    ) -> (released: bool)
        ensures
            released == final(self).ready(),
            final(self).ready() == (old(self).ready() || all_ready(
                app_data.items(),
                ids_of(all_ids@),
            )),
            released ==> final(gui_state).status() == old(gui_state).status().remove(Status::Init)
                && final(gui_state).loading() == old(gui_state).loading().remove(loading_uuid),
            !released ==> final(gui_state).status() == old(gui_state).status()
                && final(gui_state).loading() == old(gui_state).loading(),
            final(gui_state).frame() == old(gui_state).frame(),
            final(self).phase() == old(self).phase(),
            final(self).settings() == old(self).settings(),
            final(self).running() == old(self).running(),
    {
        if !self.initialised {
            self.initialised = app_data.initialised(all_ids);
        }
        if self.initialised {
            gui_state.status_del(Status::Init);
            Self::stop_loading_spin(gui_state, loading_uuid);
        }
        self.initialised
    }

    /// Shows that the runtime refused a command: the error names the command,
    /// and the `Error` flag is raised.
    pub fn set_error(app_data: &mut AppData, gui_state: &mut GuiState, error: DockerControls)
        ensures
            final(app_data).error() == Some(AppError::DockerCommand(error)),
            final(app_data).items() == old(app_data).items(),
            final(app_data).selected() == old(app_data).selected(),
            final(app_data).settings() == old(app_data).settings(),
            final(gui_state).status() == old(gui_state).status().insert(Status::Error),
            final(gui_state).loading() == old(gui_state).loading(),
            final(gui_state).frame() == old(gui_state).frame(),
    {
        app_data.set_error(AppError::DockerCommand(error));
        gui_state.status_push(Status::Error);
    }

    /// The end of a call to the runtime. Where the call failed, the error is
    /// shown; either way the loading sign no longer stands for the call. The
    /// result says whether a refresh has to follow: after an unpause that
    /// succeeded.
    pub fn exec_docker(
        app_data: &mut AppData,
        gui_state: &mut GuiState,
        succeeded: bool,
        control: DockerControls,
        uuid: u128,
    ) -> (refresh: bool)
        ensures
            refresh == (succeeded && control == DockerControls::Unpause),
            final(app_data).error() == if succeeded {
                old(app_data).error()
            } else {
                Some(AppError::DockerCommand(control))
            },
            final(gui_state).status() == if succeeded {
                old(gui_state).status()
            } else {
                old(gui_state).status().insert(Status::Error)
            },
            final(gui_state).loading() == old(gui_state).loading().remove(uuid),
            final(gui_state).frame() == old(gui_state).frame(),
            final(app_data).items() == old(app_data).items(),
            final(app_data).selected() == old(app_data).selected(),
            final(app_data).settings() == old(app_data).settings(),
    {
        if !succeeded {
            Self::set_error(app_data, gui_state, control);
        }
        Self::stop_loading_spin(gui_state, uuid);
        succeeded && control == DockerControls::Unpause
    }

    /// Takes one command, once the initialisation is over. A command about a
    /// container asks for exactly one call to the runtime, under a fresh
    /// token for the loading sign; `Update` asks for a refresh; `Quit` empties
    /// the registry, hands out every task that was in flight to be cancelled,
    /// and marks the monitor as stopped.
    pub fn message_handler(&mut self, message: DockerMessage, spawns: &mut Spawns) -> (request:
        Request)
        requires
            old(self).ready(),
        ensures
            message.control() matches Some(call) ==> (request@ matches RequestView::Docker {
                control,
                id,
                uuid,
            } && control == call.0 && id == call.1),
            message is Update ==> request@ is Update,
            message is Quit ==> (request@ matches RequestView::Quit { cancelled }
                && cancelled.to_set() == old(spawns)@ && cancelled.no_duplicates()
                && cancelled.len() == old(spawns)@.len()),
            final(spawns)@ == if message is Quit {
                Set::<SpawnKey>::empty()
            } else {
                old(spawns)@
            },
            final(self).running() == (old(self).running() && !(message is Quit)),
            final(self).ready(),
            final(self).phase() == old(self).phase(),
            final(self).settings() == old(self).settings(),
    {
        match message {
            DockerMessage::Pause(id) => Request::Docker {
                control: DockerControls::Pause,
                id,
                uuid: new_uuid(),
            },
            DockerMessage::Restart(id) => Request::Docker {
                control: DockerControls::Restart,
                id,
                uuid: new_uuid(),
            },
            DockerMessage::Start(id) => Request::Docker {
                control: DockerControls::Start,
                id,
                uuid: new_uuid(),
            },
            DockerMessage::Stop(id) => Request::Docker {
                control: DockerControls::Stop,
                id,
                uuid: new_uuid(),
            },
            DockerMessage::Unpause(id) => Request::Docker {
                control: DockerControls::Unpause,
                id,
                uuid: new_uuid(),
            },
            DockerMessage::Update => Request::Update,
            DockerMessage::Quit => {
                let cancelled = spawns.cancel_all();
                self.is_running = false;
                Request::Quit { cancelled }
            },
        }
    }

    /// The scheduler for a model that shows no error: it starts in phase one,
    /// not initialised, and running. With an error shown there is nothing to
    /// schedule.
    pub fn init(app_data: &AppData) -> (docker_data: Option<Self>)
        ensures
            docker_data is Some <==> app_data.error() is None,
            docker_data matches Some(inner) ==> (inner.settings() == app_data.settings()
                && inner.phase() == Binate::One && !inner.ready() && inner.running()),
    {
        if app_data.get_error().is_none() {
            Some(
                DockerData {
                    args: app_data.args(),
                    binate: Binate::One,
                    initialised: false,
                    is_running: true,
                },
            )
        } else {
            None
        }
    }

    /// The settings.
    pub fn args(&self) -> (args: CliArgs)
        ensures
            args == self.settings(),
    {
        self.args
    }

    /// The phase of the next stats cycle.
    pub fn binate(&self) -> (binate: Binate)
        ensures
            binate == self.phase(),
    {
        self.binate
    }

    /// Whether the initialisation is over.
    pub fn is_initialised(&self) -> (r: bool)
        ensures
            r == self.ready(),
    {
        self.initialised
    }

    /// Whether the monitor is still meant to run.
    pub fn is_running(&self) -> (r: bool)
        ensures
            r == self.running(),
    {
        self.is_running
    }
}

/// A copy of a listed container.
fn copy_summary(listed: &ContainerSummary) -> (copy: ContainerSummary)
    ensures
        copy == *listed,
{
    ContainerSummary {
        id: copy_text(&listed.id),
        name: copy_text(&listed.name),
        image: copy_text(&listed.image),
        command: copy_text(&listed.command),
        state: copy_text(&listed.state),
    }
}

/// A copy of a field that may be missing.
fn copy_text(field: &Option<String>) -> (copy: Option<String>)
    ensures
        copy == *field,
{
    match field {
        Some(text) => Some(text.clone()),
        None => None,
    }
}

/// A fresh token for the loading sign. It is made by `uuid::Uuid::new_v4` and
/// read as a number by `Uuid::as_u128`. The token is random: nothing is
/// claimed of it.
#[verifier::external_body]
fn new_uuid() -> u128 {
    uuid::Uuid::new_v4().as_u128()
}

} // verus!
