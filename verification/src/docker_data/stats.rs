//! One stats sample of a container, and the processor load that it shows.

use vstd::prelude::*;

verus! {

/// The processor time that a container has used up to one reading.
#[derive(Debug, Clone, PartialEq, Eq)]
pub struct CpuUsage {
    /// The time used on each core, where the runtime reports it.
    pub percpu_usage: Option<Vec<u64>>,
    /// The time used on all cores together.
    pub total_usage: u64,
}

/// The processor counters of one reading.
#[derive(Debug, Clone, PartialEq, Eq)]
pub struct CpuStats {
    pub cpu_usage: CpuUsage,
    /// The time that the whole system has used.
    pub system_cpu_usage: Option<u64>,
    /// The number of cores that are online.
    pub online_cpus: Option<u64>,
}

/// The memory counters of one reading.
#[derive(Debug, Clone, Copy, PartialEq, Eq, Structural)]
pub struct MemoryStats {
    pub usage: Option<u64>,
    pub limit: Option<u64>,
}

/// The traffic counters of one network interface.
#[derive(Debug, Clone, Copy, PartialEq, Eq, Structural)]
pub struct NetworkStats {
    pub rx_bytes: u64,
    pub tx_bytes: u64,
}

/// One stats sample: the current reading and the one before it.
#[derive(Debug, Clone, PartialEq, Eq)]
pub struct Stats {
    /// The interfaces of the container, in the order in which the runtime
    /// listed them.
    pub networks: Option<Vec<NetworkStats>>,
    pub memory_stats: MemoryStats,
    pub cpu_stats: CpuStats,
    pub precpu_stats: CpuStats,
}

/// A processor load as an exact fraction: the share `cpu_delta / system_delta`
/// of the system's time, on `online_cpus` cores. In percent it is
/// `numerator() / denominator()`.
#[derive(Debug, Clone, Copy, PartialEq, Eq, Structural)]
pub struct CpuLoad {
    pub cpu_delta: u64,
    pub system_delta: u64,
    pub online_cpus: u64,
}

impl CpuLoad {
    /// The load of a container that used no processor time.
    pub open spec fn zero() -> CpuLoad {
        CpuLoad { cpu_delta: 0, system_delta: 1, online_cpus: 0 }
    }

    /// The numerator of the load in percent.
    pub open spec fn numerator(self) -> int {
        self.cpu_delta * self.online_cpus * 100
    }

    /// The denominator of the load in percent.
    pub open spec fn denominator(self) -> int {
        self.system_delta as int
    }
}

impl Stats {
    /// The processor time that the container used between the two readings.
    pub open spec fn cpu_delta(&self) -> int {
        self.cpu_stats.cpu_usage.total_usage - self.precpu_stats.cpu_usage.total_usage
    }

    /// The time that the system used between the two readings; zero where a
    /// reading lacks the system's counter.
    pub open spec fn system_delta(&self) -> int {
        match (self.cpu_stats.system_cpu_usage, self.precpu_stats.system_cpu_usage) {
            (Some(current), Some(previous)) => current - previous,
            _ => 0,
        }
    }

    /// The number of cores: the count that the reading gives, else the number
    /// of per-core counters, else none.
    pub open spec fn online_cpus(&self) -> int {
        match self.cpu_stats.online_cpus {
            Some(count) => count as int,
            None => match self.cpu_stats.cpu_usage.percpu_usage {
                Some(per_core) => per_core@.len() as int,
                None => 0,
            },
        }
    }

    /// The load that the sample shows: `cpu_delta / system_delta` on
    /// `online_cpus` cores where both deltas are positive, else zero.
    pub open spec fn load(&self) -> CpuLoad {
        if self.cpu_delta() > 0 && self.system_delta() > 0 {
            CpuLoad {
                cpu_delta: self.cpu_delta() as u64,
                system_delta: self.system_delta() as u64,
                online_cpus: self.online_cpus() as u64,
            }
        } else {
            CpuLoad::zero()
        }
    }

    /// The bytes received and sent on the first interface; zero where the
    /// sample lists none.
    pub open spec fn traffic(&self) -> (u64, u64) {
        match self.networks {
            Some(list) => if list@.len() > 0 {
                (list@[0].rx_bytes, list@[0].tx_bytes)
            } else {
                (0, 0)
            },
            None => (0, 0),
        }
    }
}

/// What one stats sample tells the model.
#[derive(Debug, Clone, Copy, PartialEq, Eq, Structural)]
pub struct StatsUpdate {
    pub cpu_stats: Option<CpuLoad>,
    pub mem_stats: Option<u64>,
    pub mem_limit: u64,
    pub rx: u64,
    pub tx: u64,
}

/// The number that a counter holds: zero where it is missing.
pub open spec fn or_zero(counter: Option<u64>) -> u64 {
    match counter {
        Some(value) => value,
        None => 0,
    }
}

impl Stats {
    /// What the sample tells of a container. Of one that runs: its load, the
    /// memory it uses and its traffic. Of one that does not run: no load, no
    /// memory in use and no traffic. The memory limit is told either way.
    pub open spec fn update(&self, is_running: bool) -> StatsUpdate {
        if is_running {
            StatsUpdate {
                cpu_stats: Some(self.load()),
                mem_stats: Some(or_zero(self.memory_stats.usage)),
                mem_limit: or_zero(self.memory_stats.limit),
                rx: self.traffic().0,
                tx: self.traffic().1,
            }
        } else {
            StatsUpdate {
                cpu_stats: None,
                mem_stats: None,
                mem_limit: or_zero(self.memory_stats.limit),
                rx: 0,
                tx: 0,
            }
        }
    }
}

} // verus!
