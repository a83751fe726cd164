//! The system snapshot and how it is put together from what the host
//! reports.
//!
//! Percentages are unsigned integers in hundredths of a percent. A field whose
//! sharing switch is off is absent from the snapshot, which is not the same
//! as a field that is present and zero.

use crate::process::{is_snapshot_ranking, rank_processes, samples_of, ProcessReading, ProcessSample};
use crate::settings::ShareSettings;
use std::collections::HashMap;
use vstd::prelude::*;

verus! {

/// Memory in bytes, and how much of it is used.
#[derive(Clone, Copy, Debug, PartialEq, Eq, Structural)]
pub struct MemoryInfo {
    pub total: u64,
    pub used: u64,
    /// Hundredths of a percent.
    pub percent: u128,
}

/// One disk and its space in bytes.
#[derive(Debug)]
pub struct DiskInfo {
    pub name: String,
    pub mount_point: String,
    pub total_space: u64,
    pub available_space: u64,
}

/// The cumulative byte counters of one network interface.
#[derive(Debug)]
pub struct NetworkInfo {
    pub name: String,
    pub received: u64,
    pub transmitted: u64,
}

/// The state of the battery, on a host that has one.
#[derive(Debug)]
pub struct BatteryInfo {
    /// Hundredths of a percent.
    pub percentage: u32,
    pub is_charging: bool,
    pub status: String,
}

/// Everything that the host reports for one snapshot. A part whose switch is
/// off need not be read: whatever stands in its place is left out of the
/// snapshot.
#[derive(Debug)]
pub struct HostReadings {
    /// Absent where the host name cannot be had as text.
    pub computer_name: Option<String>,
    /// Seconds since the host started.
    pub uptime: u64,
    /// One entry for each core, in hundredths of a percent.
    pub cpu_usage: Vec<u32>,
    pub total_memory: u64,
    pub used_memory: u64,
    pub processes: Vec<ProcessReading>,
    pub focused_pid: Option<u32>,
    pub window_titles: HashMap<u32, String>,
    pub disks: Vec<DiskInfo>,
    pub networks: Vec<NetworkInfo>,
    /// Absent on a host without a battery.
    pub battery: Option<BatteryInfo>,
}

/// One point-in-time reading of the metrics that are shared. The fields
/// stand in the order in which they are written out.
#[derive(Debug)]
pub struct SystemSnapshot {
    pub computer_name: Option<String>,
    pub uptime: Option<u64>,
    pub cpu_usage: Option<Vec<u32>>,
    pub memory_usage: Option<MemoryInfo>,
    pub processes: Option<Vec<ProcessSample>>,
    pub disks: Option<Vec<DiskInfo>>,
    pub network: Option<Vec<NetworkInfo>>,
    pub battery: Option<BatteryInfo>,
}

/// The share of `part` in `whole`, in hundredths of a percent and rounded
/// down; zero where `whole` is zero.
pub open spec fn percent_of(part: u64, whole: u64) -> nat {
    if whole == 0 {
        0
    } else {
        (part * 10000 / (whole as int)) as nat
    }
}

/// The share of `part` in `whole`, in hundredths of a percent.
pub fn percent(part: u64, whole: u64) -> (share: u128)
    ensures
        share == percent_of(part, whole),
        whole == 0 ==> share == 0,
{
    if whole == 0 {
        0
    } else {
        part as u128 * 10000 / (whole as u128)
    }
}

/// The memory entry for a total and a used amount.
pub open spec fn memory_info_of(total: u64, used: u64) -> MemoryInfo {
    MemoryInfo { total, used, percent: percent_of(used, total) as u128 }
}

/// The memory entry for a total and a used amount. A total of zero gives zero
/// percent.
pub fn memory_info(total: u64, used: u64) -> (info: MemoryInfo)
    ensures
        info == memory_info_of(total, used),
        total == 0 ==> info.percent == 0,
{
    MemoryInfo { total, used, percent: percent(used, total) }
}

/// Puts a snapshot together. A field is present exactly where its switch is
/// on (the computer name only where the host has one as text; the battery
/// has no switch and is present where the host has one). The process list is
/// ranked under `limit`.
pub fn assemble(share: ShareSettings, limit: u32, readings: HostReadings) -> (snapshot:
    SystemSnapshot)
    ensures
        snapshot.computer_name == if share.share_computer_name {
            readings.computer_name
        } else {
            None
        },
        snapshot.uptime == if share.share_uptime {
            Some(readings.uptime)
        } else {
            None
        },
        snapshot.cpu_usage == if share.share_cpu_usage {
            Some(readings.cpu_usage)
        } else {
            None
        },
        snapshot.memory_usage == if share.share_memory_usage {
            Some(memory_info_of(readings.total_memory, readings.used_memory))
        } else {
            None
        },
        share.share_processes ==> snapshot.processes is Some && is_snapshot_ranking(
            samples_of(readings.processes@, readings.focused_pid, readings.window_titles@),
            limit as nat,
            snapshot.processes->0@,
        ),
        !share.share_processes ==> snapshot.processes is None,
        snapshot.disks == if share.share_disks {
            Some(readings.disks)
        } else {
            None
        },
        snapshot.network == if share.share_network {
            Some(readings.networks)
        } else {
            None
        },
        snapshot.battery == readings.battery,
{
    let computer_name = if share.share_computer_name {
        readings.computer_name
    } else {
        None
    };
    let uptime = if share.share_uptime {
        Some(readings.uptime)
    } else {
        None
    };
    let cpu_usage = if share.share_cpu_usage {
        Some(readings.cpu_usage)
    } else {
        None
    };
    let memory_usage = if share.share_memory_usage {
        Some(memory_info(readings.total_memory, readings.used_memory))
    } else {
        None
    };
    let processes = if share.share_processes {
        Some(rank_processes(&readings.processes, readings.focused_pid, &readings.window_titles, limit))
    } else {
        None
    };
    let disks = if share.share_disks {
        Some(readings.disks)
    } else {
        None
    };
    let network = if share.share_network {
        Some(readings.networks)
    } else {
        None
    };
    SystemSnapshot {
        computer_name,
        uptime,
        cpu_usage,
        memory_usage,
        processes,
        disks,
        network,
        battery: readings.battery,
    }
}

} // verus!
