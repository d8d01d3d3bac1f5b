use oxker::app_data::{AppData, ContainerId, ContainerSummary};
use oxker::docker_data::{
    Binate, CpuLoad, CpuStats, CpuUsage, DockerData, LogsOptions, MemoryStats, NetworkStats,
    SpawnId, Spawns, Stats, StatsOptions, StatsUpdate,
};
use oxker::parse_args::CliArgs;

fn stats(total: u64, pre_total: u64, system: Option<u64>, pre_system: Option<u64>) -> Stats {
    Stats {
        networks: Some(vec![
            NetworkStats { rx_bytes: 100, tx_bytes: 200 },
            NetworkStats { rx_bytes: 1, tx_bytes: 2 },
        ]),
        memory_stats: MemoryStats { usage: Some(4096), limit: Some(8192) },
        cpu_stats: CpuStats {
            cpu_usage: CpuUsage { percpu_usage: Some(vec![1, 2, 3]), total_usage: total },
            system_cpu_usage: system,
            online_cpus: Some(4),
        },
        precpu_stats: CpuStats {
            cpu_usage: CpuUsage { percpu_usage: None, total_usage: pre_total },
            system_cpu_usage: pre_system,
            online_cpus: None,
        },
    }
}

fn percent(load: CpuLoad) -> f64 {
    (load.cpu_delta as f64 / load.system_delta as f64) * load.online_cpus as f64 * 100.0
}

#[test]
fn usage_is_the_share_of_the_system_time_on_all_cores() {
    let load = DockerData::calculate_usage(&stats(300, 100, Some(2000), Some(1000)));
    assert_eq!(load, CpuLoad { cpu_delta: 200, system_delta: 1000, online_cpus: 4 });
    assert_eq!(percent(load), 80.0);
}

#[test]
fn usage_counts_the_cores_where_their_number_is_missing() {
    let mut sample = stats(150, 100, Some(1100), Some(1000));
    sample.cpu_stats.online_cpus = None;
    let load = DockerData::calculate_usage(&sample);
    assert_eq!(load, CpuLoad { cpu_delta: 50, system_delta: 100, online_cpus: 3 });
    assert_eq!(percent(load), 150.0);
}

#[test]
fn usage_without_any_count_of_cores_is_zero() {
    let mut sample = stats(150, 100, Some(1100), Some(1000));
    sample.cpu_stats.online_cpus = None;
    sample.cpu_stats.cpu_usage.percpu_usage = None;
    let load = DockerData::calculate_usage(&sample);
    assert_eq!(load.online_cpus, 0);
    assert_eq!(percent(load), 0.0);
}

fn idle() -> CpuLoad {
    CpuLoad { cpu_delta: 0, system_delta: 1, online_cpus: 0 }
}

#[test]
fn usage_is_zero_where_a_delta_is_not_positive() {
    assert_eq!(DockerData::calculate_usage(&stats(100, 100, Some(2000), Some(1000))), idle());
    assert_eq!(DockerData::calculate_usage(&stats(50, 100, Some(2000), Some(1000))), idle());
    assert_eq!(DockerData::calculate_usage(&stats(300, 100, Some(1000), Some(1000))), idle());
    assert_eq!(DockerData::calculate_usage(&stats(300, 100, Some(500), Some(1000))), idle());
    assert_eq!(percent(idle()), 0.0);
}

#[test]
fn usage_is_zero_where_the_system_counter_is_missing() {
    assert_eq!(DockerData::calculate_usage(&stats(300, 100, None, Some(1000))), idle());
    assert_eq!(DockerData::calculate_usage(&stats(300, 100, Some(2000), None)), idle());
    assert_eq!(DockerData::calculate_usage(&stats(300, 100, None, None)), idle());
}

#[test]
fn usage_takes_the_largest_counters() {
    let load = DockerData::calculate_usage(&stats(u64::MAX, 0, Some(u64::MAX), Some(0)));
    assert_eq!(load, CpuLoad { cpu_delta: u64::MAX, system_delta: u64::MAX, online_cpus: 4 });
}

#[test]
fn update_of_a_running_container() {
    let update = DockerData::stats_update(&stats(300, 100, Some(2000), Some(1000)), true);
    assert_eq!(
        update,
        StatsUpdate {
            cpu_stats: Some(CpuLoad { cpu_delta: 200, system_delta: 1000, online_cpus: 4 }),
            mem_stats: Some(4096),
            mem_limit: 8192,
            rx: 100,
            tx: 200,
        }
    );
}

#[test]
fn update_of_a_container_that_does_not_run() {
    let update = DockerData::stats_update(&stats(300, 100, Some(2000), Some(1000)), false);
    assert_eq!(
        update,
        StatsUpdate { cpu_stats: None, mem_stats: None, mem_limit: 8192, rx: 0, tx: 0 }
    );
}

#[test]
fn update_of_a_sample_with_missing_fields() {
    let mut sample = stats(100, 100, None, None);
    sample.networks = None;
    sample.memory_stats = MemoryStats { usage: None, limit: None };
    assert_eq!(
        DockerData::stats_update(&sample, true),
        StatsUpdate { cpu_stats: Some(idle()), mem_stats: Some(0), mem_limit: 0, rx: 0, tx: 0 }
    );
    sample.networks = Some(vec![]);
    assert_eq!(DockerData::stats_update(&sample, true).rx, 0);
    assert_eq!(DockerData::stats_update(&sample, true).tx, 0);
}

fn args() -> CliArgs {
    CliArgs { docker_interval: 1000, show_self: false, timestamp: false }
}

fn id(text: &str) -> ContainerId {
    ContainerId::from(text.to_owned())
}

fn model_with(ids: &[&str]) -> AppData {
    let mut app_data = AppData::new(args());
    let listed: Vec<ContainerSummary> = ids
        .iter()
        .map(|id| ContainerSummary {
            id: Some((*id).to_owned()),
            name: None,
            image: None,
            command: None,
            state: Some("running".to_owned()),
        })
        .collect();
    app_data.update_containers(&listed);
    app_data
}

#[test]
fn stats_task_records_its_sample_and_leaves_the_registry() {
    let mut app_data = model_with(&["a", "b"]);
    let mut spawns = Spawns::new();
    let key = SpawnId::Stats((id("a"), Binate::One));
    spawns.insert_if_absent(key.clone());
    spawns.insert_if_absent(SpawnId::Stats((id("b"), Binate::One)));
    DockerData::update_container_stat(
        &id("a"),
        &mut app_data,
        true,
        &mut spawns,
        &key,
        Some(stats(300, 100, Some(2000), Some(1000))),
    );
    assert!(!spawns.contains(&key));
    assert_eq!(spawns.len(), 1);
    let a = app_data.get_container_by_id(&id("a")).unwrap();
    assert_eq!(a.cpu_stats, Some(CpuLoad { cpu_delta: 200, system_delta: 1000, online_cpus: 4 }));
    assert_eq!(a.mem_stats, Some(4096));
    assert_eq!(a.mem_limit, 8192);
    assert_eq!((a.rx, a.tx), (100, 200));
    assert!(a.stats_seen);
    let b = app_data.get_container_by_id(&id("b")).unwrap();
    assert_eq!(b.cpu_stats, None);
    assert!(!b.stats_seen);
}

#[test]
fn stats_task_of_a_container_that_does_not_run_records_no_load() {
    let mut app_data = model_with(&["a"]);
    let mut spawns = Spawns::new();
    let key = SpawnId::Stats((id("a"), Binate::Two));
    spawns.insert_if_absent(key.clone());
    DockerData::update_container_stat(
        &id("a"),
        &mut app_data,
        false,
        &mut spawns,
        &key,
        Some(stats(300, 100, Some(2000), Some(1000))),
    );
    let a = app_data.get_container_by_id(&id("a")).unwrap();
    assert_eq!(a.cpu_stats, None);
    assert_eq!(a.mem_stats, None);
    assert_eq!(a.mem_limit, 8192);
    assert_eq!((a.rx, a.tx), (0, 0));
    assert!(a.stats_seen);
    assert!(spawns.is_empty());
}

#[test]
fn stats_task_without_sample_only_leaves_the_registry() {
    let mut app_data = model_with(&["a"]);
    let mut spawns = Spawns::new();
    let key = SpawnId::Stats((id("a"), Binate::One));
    spawns.insert_if_absent(key.clone());
    DockerData::update_container_stat(&id("a"), &mut app_data, true, &mut spawns, &key, None);
    assert!(spawns.is_empty());
    assert!(!app_data.get_container_by_id(&id("a")).unwrap().stats_seen);
}

#[test]
fn the_sample_that_ends_last_is_the_one_that_stays() {
    let mut app_data = model_with(&["a"]);
    let mut spawns = Spawns::new();
    let one = SpawnId::Stats((id("a"), Binate::One));
    let two = SpawnId::Stats((id("a"), Binate::Two));
    spawns.insert_if_absent(one.clone());
    spawns.insert_if_absent(two.clone());
    DockerData::update_container_stat(
        &id("a"),
        &mut app_data,
        true,
        &mut spawns,
        &two,
        Some(stats(300, 100, Some(2000), Some(1000))),
    );
    DockerData::update_container_stat(
        &id("a"),
        &mut app_data,
        true,
        &mut spawns,
        &one,
        Some(stats(110, 100, Some(2000), Some(1000))),
    );
    let a = app_data.get_container_by_id(&id("a")).unwrap();
    assert_eq!(a.cpu_stats, Some(CpuLoad { cpu_delta: 10, system_delta: 1000, online_cpus: 4 }));
}

#[test]
fn log_task_keeps_the_lines_that_are_not_blank() {
    let mut app_data = model_with(&["a"]);
    let mut spawns = Spawns::new();
    spawns.insert(SpawnId::Log(id("a")));
    let lines = vec![
        "first".to_owned(),
        "".to_owned(),
        "   ".to_owned(),
        " second ".to_owned(),
        "\t\n".to_owned(),
        "\u{2003}".to_owned(),
        "third\n".to_owned(),
    ];
    DockerData::update_log(&id("a"), &mut app_data, &mut spawns, lines, 1234);
    let a = app_data.get_container_by_id(&id("a")).unwrap();
    assert_eq!(a.logs, vec![" first".trim().to_owned(), " second ".to_owned(), "third\n".to_owned()]);
    assert_eq!(a.last_updated, 1234);
    assert!(a.logs_seen);
    assert!(spawns.is_empty());
}

#[test]
fn log_task_appends_to_what_is_there() {
    let mut app_data = model_with(&["a"]);
    let mut spawns = Spawns::new();
    DockerData::update_log(&id("a"), &mut app_data, &mut spawns, vec!["one".to_owned()], 1);
    DockerData::update_log(&id("a"), &mut app_data, &mut spawns, vec!["two".to_owned()], 2);
    DockerData::update_log(&id("a"), &mut app_data, &mut spawns, vec![], 3);
    let a = app_data.get_container_by_id(&id("a")).unwrap();
    assert_eq!(a.logs, vec!["one".to_owned(), "two".to_owned()]);
    assert_eq!(a.last_updated, 3);
}

#[test]
fn stats_options() {
    assert_eq!(StatsOptions::new(true), StatsOptions { stream: false, one_shot: false });
    assert_eq!(StatsOptions::new(false), StatsOptions { stream: false, one_shot: true });
}

#[test]
fn logs_options() {
    assert_eq!(
        LogsOptions::new(true, 0),
        LogsOptions { stdout: true, timestamps: true, since: 0 }
    );
    assert_eq!(
        LogsOptions::new(false, 1_700_000_000),
        LogsOptions { stdout: true, timestamps: false, since: 1_700_000_000 }
    );
    assert_eq!(LogsOptions::new(false, i64::MAX as u64).since, i64::MAX);
    assert_eq!(LogsOptions::new(false, i64::MAX as u64 + 1).since, 0);
    assert_eq!(LogsOptions::new(false, u64::MAX).since, 0);
}
