use oxker::app_data::{AppData, ContainerId, ContainerSummary};
use oxker::app_error::{AppError, DockerControls};
use oxker::docker_data::{
    Binate, DockerData, DockerMessage, Request, SpawnId, Spawns, Task,
};
use oxker::parse_args::CliArgs;
use oxker::ui::{GuiState, Status};

fn args() -> CliArgs {
    CliArgs { docker_interval: 1000, show_self: false, timestamp: true }
}

fn id(text: &str) -> ContainerId {
    ContainerId::from(text.to_owned())
}

fn listed(id: &str, state: &str) -> ContainerSummary {
    ContainerSummary {
        id: Some(id.to_owned()),
        name: Some(format!("name_{id}")),
        image: Some("image".to_owned()),
        command: Some("/bin/run".to_owned()),
        state: Some(state.to_owned()),
    }
}

fn scheduler(app_data: &AppData) -> DockerData {
    match DockerData::init(app_data) {
        Some(docker_data) => docker_data,
        None => panic!("the model shows an error"),
    }
}

#[test]
fn init_starts_in_phase_one() {
    let app_data = AppData::new(args());
    let docker_data = scheduler(&app_data);
    assert_eq!(docker_data.binate(), Binate::One);
    assert!(!docker_data.is_initialised());
    assert!(docker_data.is_running());
    assert_eq!(docker_data.args(), args());
}

#[test]
fn init_with_an_error_gives_nothing() {
    let mut app_data = AppData::new(args());
    app_data.set_error(AppError::DockerConnect);
    assert!(DockerData::init(&app_data).is_none());
}

#[test]
fn toggle_alternates() {
    assert_eq!(Binate::One.toggle(), Binate::Two);
    assert_eq!(Binate::Two.toggle(), Binate::One);
    assert_eq!(Binate::One.toggle().toggle(), Binate::One);
}

#[test]
fn discovery_flags_what_is_worth_polling() {
    let mut app_data = AppData::new(args());
    let docker_data = scheduler(&app_data);
    let containers = vec![
        listed("a", "running"),
        listed("b", "exited"),
        listed("c", "restarting"),
        listed("d", "paused"),
    ];
    let all_ids = docker_data.update_all_containers(&mut app_data, &containers);
    assert_eq!(
        all_ids,
        vec![(true, id("a")), (false, id("b")), (true, id("c")), (false, id("d"))]
    );
    assert_eq!(app_data.containers().len(), 4);
}

#[test]
fn discovery_drops_entries_without_identifier() {
    let mut app_data = AppData::new(args());
    let docker_data = scheduler(&app_data);
    let mut nameless = listed("x", "running");
    nameless.id = None;
    let all_ids =
        docker_data.update_all_containers(&mut app_data, &vec![nameless, listed("a", "running")]);
    assert_eq!(all_ids, vec![(true, id("a"))]);
    assert_eq!(app_data.containers().len(), 1);
}

#[test]
fn discovery_hides_the_monitor_itself() {
    let mut app_data = AppData::new(args());
    let docker_data = scheduler(&app_data);
    let mut own = listed("self", "running");
    own.command = Some("./start_oxker.sh --flag".to_owned());
    let all_ids =
        docker_data.update_all_containers(&mut app_data, &vec![own, listed("a", "running")]);
    assert_eq!(all_ids, vec![(true, id("a"))]);
    assert!(app_data.get_container_by_id(&id("self")).is_none());
}

#[test]
fn discovery_shows_the_monitor_itself_when_asked() {
    let shown = CliArgs { docker_interval: 1000, show_self: true, timestamp: false };
    let mut app_data = AppData::new(shown);
    let docker_data = scheduler(&app_data);
    let mut own = listed("self", "running");
    own.command = Some("./start_oxker.sh".to_owned());
    let all_ids = docker_data.update_all_containers(&mut app_data, &vec![own]);
    assert_eq!(all_ids, vec![(true, id("self"))]);
}

#[test]
fn discovery_of_nothing_is_no_error() {
    let mut app_data = AppData::new(args());
    let docker_data = scheduler(&app_data);
    let all_ids = docker_data.update_all_containers(&mut app_data, &vec![]);
    assert!(all_ids.is_empty());
    assert!(app_data.get_error().is_none());
}

#[test]
fn same_phase_is_dispatched_once() {
    let mut spawns = Spawns::new();
    let key = SpawnId::Stats((id("c1"), Binate::One));
    assert!(spawns.insert_if_absent(key.clone()));
    assert!(!spawns.insert_if_absent(key.clone()));
    assert_eq!(spawns.len(), 1);
    // the next phase is not held back by the task of this one
    assert!(spawns.insert_if_absent(SpawnId::Stats((id("c1"), Binate::Two))));
    assert_eq!(spawns.len(), 2);
    // a third cycle is turned away while the first is in flight
    assert!(!spawns.insert_if_absent(SpawnId::Stats((id("c1"), Binate::One))));
    assert_eq!(spawns.len(), 2);
}

#[test]
fn stats_pass_flips_the_phase() {
    let app_data = AppData::new(args());
    let mut docker_data = scheduler(&app_data);
    let mut spawns = Spawns::new();
    let all_ids = vec![(true, id("a")), (false, id("b"))];
    let first = docker_data.update_all_container_stats(&mut spawns, &all_ids);
    assert_eq!(
        first,
        vec![
            Task::Stats { id: id("a"), is_running: true, binate: Binate::One },
            Task::Stats { id: id("b"), is_running: false, binate: Binate::One },
        ]
    );
    assert_eq!(docker_data.binate(), Binate::Two);
    let second = docker_data.update_all_container_stats(&mut spawns, &all_ids);
    assert_eq!(
        second,
        vec![
            Task::Stats { id: id("a"), is_running: true, binate: Binate::Two },
            Task::Stats { id: id("b"), is_running: false, binate: Binate::Two },
        ]
    );
    assert_eq!(docker_data.binate(), Binate::One);
    assert_eq!(spawns.len(), 4);
    // a third pass, with all four tasks in flight, starts nothing
    let third = docker_data.update_all_container_stats(&mut spawns, &all_ids);
    assert!(third.is_empty());
    assert_eq!(spawns.len(), 4);
    assert_eq!(docker_data.binate(), Binate::Two);
}

#[test]
fn stats_pass_names_a_container_once() {
    let app_data = AppData::new(args());
    let mut docker_data = scheduler(&app_data);
    let mut spawns = Spawns::new();
    let all_ids = vec![(true, id("a")), (true, id("a"))];
    let tasks = docker_data.update_all_container_stats(&mut spawns, &all_ids);
    assert_eq!(tasks, vec![Task::Stats { id: id("a"), is_running: true, binate: Binate::One }]);
    assert_eq!(spawns.len(), 1);
}

#[test]
fn task_knows_its_key() {
    let stats = Task::Stats { id: id("a"), is_running: true, binate: Binate::Two };
    assert_eq!(stats.spawn_id(), SpawnId::Stats((id("a"), Binate::Two)));
    let log = Task::Log { id: id("a"), timestamps: false, since: 7 };
    assert_eq!(log.spawn_id(), SpawnId::Log(id("a")));
    assert_eq!(log.spawn_id().container(), &id("a"));
}

#[test]
fn seeding_reads_every_log_from_the_beginning() {
    let app_data = AppData::new(args());
    let docker_data = scheduler(&app_data);
    let mut spawns = Spawns::new();
    let all_ids = vec![(true, id("a")), (false, id("b"))];
    let tasks = docker_data.init_all_logs(&mut spawns, &all_ids);
    assert_eq!(
        tasks,
        vec![
            Task::Log { id: id("a"), timestamps: true, since: 0 },
            Task::Log { id: id("b"), timestamps: true, since: 0 },
        ]
    );
    assert!(spawns.contains(&SpawnId::Log(id("a"))));
    assert!(spawns.contains(&SpawnId::Log(id("b"))));
    assert_eq!(spawns.len(), 2);
}

#[test]
/// One running container: the first refresh starts its stats task of phase
/// one and its log task; the second, before either has ended, starts the
/// stats task of phase two and no log task.
fn two_refreshes_of_one_container() {
    let mut app_data = AppData::new(args());
    let mut docker_data = scheduler(&app_data);
    let mut spawns = Spawns::new();
    let containers = vec![listed("c1", "running")];
    // the container is known and its log is looked at
    docker_data.update_all_containers(&mut app_data, &containers);
    app_data.select_log(Some(0));

    let first = docker_data.update_everything(&mut app_data, &mut spawns, &containers);
    assert_eq!(
        first,
        vec![
            Task::Log { id: id("c1"), timestamps: true, since: 0 },
            Task::Stats { id: id("c1"), is_running: true, binate: Binate::One },
        ]
    );
    let second = docker_data.update_everything(&mut app_data, &mut spawns, &containers);
    assert_eq!(
        second,
        vec![Task::Stats { id: id("c1"), is_running: true, binate: Binate::Two }]
    );
    assert!(spawns.contains(&SpawnId::Stats((id("c1"), Binate::One))));
    assert!(spawns.contains(&SpawnId::Stats((id("c1"), Binate::Two))));
    assert!(spawns.contains(&SpawnId::Log(id("c1"))));
    assert_eq!(spawns.len(), 3);
    // of the stats tasks the registry holds exactly two
    assert!(spawns.remove(&SpawnId::Log(id("c1"))));
    assert_eq!(spawns.len(), 2);
}

#[test]
fn refresh_reads_the_log_on_from_where_it_was_read() {
    let mut app_data = AppData::new(args());
    let mut docker_data = scheduler(&app_data);
    let mut spawns = Spawns::new();
    let containers = vec![listed("a", "running"), listed("b", "running")];
    docker_data.update_all_containers(&mut app_data, &containers);
    app_data.update_log_by_id(vec!["line".to_owned()], &id("b"), 1_700_000_000);
    app_data.select_log(Some(1));
    let tasks = docker_data.update_everything(&mut app_data, &mut spawns, &containers);
    assert_eq!(tasks[0], Task::Log { id: id("b"), timestamps: true, since: 1_700_000_000 });
    assert_eq!(tasks.len(), 3);
}

#[test]
fn refresh_without_selection_starts_no_log_task() {
    let mut app_data = AppData::new(args());
    let mut docker_data = scheduler(&app_data);
    let mut spawns = Spawns::new();
    let containers = vec![listed("a", "running")];
    let tasks = docker_data.update_everything(&mut app_data, &mut spawns, &containers);
    assert_eq!(tasks, vec![Task::Stats { id: id("a"), is_running: true, binate: Binate::One }]);
    app_data.select_log(Some(5));
    let tasks = docker_data.update_everything(&mut app_data, &mut spawns, &containers);
    assert_eq!(tasks, vec![Task::Stats { id: id("a"), is_running: true, binate: Binate::Two }]);
}

#[test]
fn log_task_runs_again_once_it_has_ended() {
    let mut app_data = AppData::new(args());
    let mut docker_data = scheduler(&app_data);
    let mut spawns = Spawns::new();
    let containers = vec![listed("a", "running")];
    docker_data.update_all_containers(&mut app_data, &containers);
    app_data.select_log(Some(0));
    let first = docker_data.update_everything(&mut app_data, &mut spawns, &containers);
    assert!(first.contains(&Task::Log { id: id("a"), timestamps: true, since: 0 }));
    DockerData::update_log(&id("a"), &mut app_data, &mut spawns, vec!["x".to_owned()], 99);
    assert!(!spawns.contains(&SpawnId::Log(id("a"))));
    let next = docker_data.update_everything(&mut app_data, &mut spawns, &containers);
    assert!(next.contains(&Task::Log { id: id("a"), timestamps: true, since: 99 }));
}

#[test]
/// Three containers, the log task of the second delayed: the initialisation
/// is over only when that task has ended.
fn barrier_waits_for_the_delayed_log_task() {
    let mut app_data = AppData::new(args());
    let mut docker_data = scheduler(&app_data);
    let mut gui_state = GuiState::new();
    let mut spawns = Spawns::new();
    let containers =
        vec![listed("c1", "running"), listed("c2", "running"), listed("c3", "running")];
    let uuid = DockerData::begin_initialise(&mut gui_state);
    assert!(gui_state.status_contains(Status::Init));
    DockerData::loading_spin(&mut gui_state, uuid);
    assert!(gui_state.is_loading());

    let (all_ids, tasks) = docker_data.initialise_container_data(
        &mut app_data,
        &mut gui_state,
        &mut spawns,
        &containers,
        uuid,
    );
    assert_eq!(all_ids.len(), 3);
    assert_eq!(tasks.len(), 6);
    assert_eq!(spawns.len(), 6);
    assert!(!docker_data.is_initialised());
    assert!(!docker_data.check_initialised(&app_data, &mut gui_state, &all_ids, uuid));

    for task in &tasks {
        match task {
            Task::Stats { id, is_running, .. } => DockerData::update_container_stat(
                id,
                &mut app_data,
                *is_running,
                &mut spawns,
                &task.spawn_id(),
                Some(sample()),
            ),
            Task::Log { id, .. } => {
                if id.get() != "c2" {
                    DockerData::update_log(id, &mut app_data, &mut spawns, vec![], 10);
                }
            }
        }
        assert!(!docker_data.check_initialised(&app_data, &mut gui_state, &all_ids, uuid));
        assert!(gui_state.status_contains(Status::Init));
    }
    assert_eq!(spawns.len(), 1);
    assert!(gui_state.is_loading());

    DockerData::update_log(&id("c2"), &mut app_data, &mut spawns, vec![], 11);
    assert!(docker_data.check_initialised(&app_data, &mut gui_state, &all_ids, uuid));
    assert!(docker_data.is_initialised());
    assert!(!gui_state.status_contains(Status::Init));
    assert!(!gui_state.is_loading());
    assert!(spawns.is_empty());
    // and it stays over
    assert!(docker_data.check_initialised(&AppData::new(args()), &mut gui_state, &all_ids, uuid));
}

fn sample() -> oxker::docker_data::Stats {
    oxker::docker_data::Stats {
        networks: None,
        memory_stats: oxker::docker_data::MemoryStats { usage: Some(1), limit: Some(2) },
        cpu_stats: oxker::docker_data::CpuStats {
            cpu_usage: oxker::docker_data::CpuUsage { percpu_usage: None, total_usage: 2 },
            system_cpu_usage: Some(20),
            online_cpus: Some(1),
        },
        precpu_stats: oxker::docker_data::CpuStats {
            cpu_usage: oxker::docker_data::CpuUsage { percpu_usage: None, total_usage: 1 },
            system_cpu_usage: Some(10),
            online_cpus: Some(1),
        },
    }
}

#[test]
fn barrier_is_open_without_containers() {
    let mut app_data = AppData::new(args());
    let mut docker_data = scheduler(&app_data);
    let mut gui_state = GuiState::new();
    let mut spawns = Spawns::new();
    let uuid = DockerData::begin_initialise(&mut gui_state);
    DockerData::loading_spin(&mut gui_state, uuid);
    let (all_ids, tasks) = docker_data.initialise_container_data(
        &mut app_data,
        &mut gui_state,
        &mut spawns,
        &vec![],
        uuid,
    );
    assert!(all_ids.is_empty());
    assert!(tasks.is_empty());
    assert!(docker_data.is_initialised());
    assert!(!gui_state.status_contains(Status::Init));
    assert!(!gui_state.is_loading());
}

fn initialised_scheduler(app_data: &mut AppData) -> DockerData {
    let mut docker_data = scheduler(app_data);
    let mut gui_state = GuiState::new();
    let mut spawns = Spawns::new();
    docker_data.initialise_container_data(app_data, &mut gui_state, &mut spawns, &vec![], 0);
    assert!(docker_data.is_initialised());
    docker_data
}

#[test]
/// `Start(c1)` and then `Update`: the call to the runtime comes before the
/// refresh.
fn commands_are_taken_in_order() {
    let mut app_data = AppData::new(args());
    let mut docker_data = initialised_scheduler(&mut app_data);
    let mut gui_state = GuiState::new();
    let mut spawns = Spawns::new();
    let queue = vec![DockerMessage::Start(id("c1")), DockerMessage::Update];
    let mut calls: Vec<String> = vec![];
    for message in queue {
        match docker_data.message_handler(message, &mut spawns) {
            Request::Docker { control, id, uuid } => {
                calls.push(format!("{control:?}({})", id.get()));
                let refresh =
                    DockerData::exec_docker(&mut app_data, &mut gui_state, true, control, uuid);
                if refresh {
                    calls.push("list".to_owned());
                }
            }
            Request::Update => {
                calls.push("list".to_owned());
                docker_data.update_everything(&mut app_data, &mut spawns, &vec![]);
            }
            Request::Quit { .. } => calls.push("quit".to_owned()),
        }
    }
    assert_eq!(calls, vec!["Start(c1)".to_owned(), "list".to_owned()]);
}

#[test]
fn each_command_asks_for_its_one_call() {
    let mut app_data = AppData::new(args());
    let mut docker_data = initialised_scheduler(&mut app_data);
    let mut spawns = Spawns::new();
    let cases = vec![
        (DockerMessage::Pause(id("a")), DockerControls::Pause),
        (DockerMessage::Restart(id("a")), DockerControls::Restart),
        (DockerMessage::Start(id("a")), DockerControls::Start),
        (DockerMessage::Stop(id("a")), DockerControls::Stop),
        (DockerMessage::Unpause(id("a")), DockerControls::Unpause),
    ];
    for (message, expected) in cases {
        match docker_data.message_handler(message, &mut spawns) {
            Request::Docker { control, id: container, .. } => {
                assert_eq!(control, expected);
                assert_eq!(container, id("a"));
            }
            other => panic!("{other:?}"),
        }
        assert!(docker_data.is_running());
    }
    assert_eq!(docker_data.message_handler(DockerMessage::Update, &mut spawns), Request::Update);
}

#[test]
fn loading_tokens_differ() {
    let mut app_data = AppData::new(args());
    let mut docker_data = initialised_scheduler(&mut app_data);
    let mut spawns = Spawns::new();
    let first = docker_data.message_handler(DockerMessage::Stop(id("a")), &mut spawns);
    let second = docker_data.message_handler(DockerMessage::Stop(id("a")), &mut spawns);
    match (first, second) {
        (Request::Docker { uuid: one, .. }, Request::Docker { uuid: two, .. }) => {
            assert_ne!(one, two)
        }
        other => panic!("{other:?}"),
    }
}

#[test]
fn quit_cancels_every_task_and_stops() {
    let mut app_data = AppData::new(args());
    let mut docker_data = initialised_scheduler(&mut app_data);
    let mut spawns = Spawns::new();
    let containers = vec![listed("a", "running"), listed("b", "running")];
    docker_data.update_all_containers(&mut app_data, &containers);
    app_data.select_log(Some(0));
    docker_data.update_everything(&mut app_data, &mut spawns, &containers);
    assert_eq!(spawns.len(), 3);
    match docker_data.message_handler(DockerMessage::Quit, &mut spawns) {
        Request::Quit { cancelled } => {
            assert_eq!(cancelled.len(), 3);
            assert!(cancelled.contains(&SpawnId::Log(id("a"))));
            // the initialisation was the pass of phase one
            assert!(cancelled.contains(&SpawnId::Stats((id("a"), Binate::Two))));
            assert!(cancelled.contains(&SpawnId::Stats((id("b"), Binate::Two))));
        }
        other => panic!("{other:?}"),
    }
    assert!(spawns.is_empty());
    assert!(!docker_data.is_running());
    // a task that did not heed the cancellation ends as ever
    DockerData::update_container_stat(
        &id("a"),
        &mut app_data,
        true,
        &mut spawns,
        &SpawnId::Stats((id("a"), Binate::Two)),
        Some(sample()),
    );
    DockerData::update_log(&id("gone"), &mut app_data, &mut spawns, vec!["x".to_owned()], 1);
    assert!(spawns.is_empty());
}

#[test]
fn failed_command_shows_one_error() {
    let mut app_data = AppData::new(args());
    let mut gui_state = GuiState::new();
    DockerData::loading_spin(&mut gui_state, 5);
    let refresh =
        DockerData::exec_docker(&mut app_data, &mut gui_state, false, DockerControls::Stop, 5);
    assert!(!refresh);
    assert_eq!(app_data.get_error(), Some(AppError::DockerCommand(DockerControls::Stop)));
    assert!(gui_state.status_contains(Status::Error));
    assert!(!gui_state.is_loading());
}

#[test]
fn command_that_succeeded_shows_no_error() {
    let mut app_data = AppData::new(args());
    let mut gui_state = GuiState::new();
    DockerData::loading_spin(&mut gui_state, 5);
    DockerData::loading_spin(&mut gui_state, 6);
    let refresh =
        DockerData::exec_docker(&mut app_data, &mut gui_state, true, DockerControls::Pause, 5);
    assert!(!refresh);
    assert!(app_data.get_error().is_none());
    assert!(!gui_state.status_contains(Status::Error));
    // the other operation is still under way
    assert!(gui_state.is_loading());
    DockerData::stop_loading_spin(&mut gui_state, 6);
    assert!(!gui_state.is_loading());
}

#[test]
fn unpause_asks_for_a_refresh_when_it_succeeded() {
    let mut app_data = AppData::new(args());
    let mut gui_state = GuiState::new();
    assert!(DockerData::exec_docker(
        &mut app_data,
        &mut gui_state,
        true,
        DockerControls::Unpause,
        1
    ));
    assert!(!DockerData::exec_docker(
        &mut app_data,
        &mut gui_state,
        false,
        DockerControls::Unpause,
        1
    ));
    assert_eq!(app_data.get_error(), Some(AppError::DockerCommand(DockerControls::Unpause)));
}

#[test]
fn set_error_names_the_command() {
    let mut app_data = AppData::new(args());
    let mut gui_state = GuiState::new();
    DockerData::set_error(&mut app_data, &mut gui_state, DockerControls::Restart);
    assert_eq!(app_data.get_error(), Some(AppError::DockerCommand(DockerControls::Restart)));
    assert!(gui_state.status_contains(Status::Error));
    DockerData::set_error(&mut app_data, &mut gui_state, DockerControls::Start);
    assert_eq!(app_data.get_error(), Some(AppError::DockerCommand(DockerControls::Start)));
}
