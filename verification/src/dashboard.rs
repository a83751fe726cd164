//! The figures of the dashboard: a summary of the host, and the usage of its
//! disks.
//!
//! Percentages are unsigned integers in hundredths of a percent.

use crate::decimal::{decimal_text, push_decimal};
use crate::snapshot::{percent, percent_of, DiskInfo};
use vstd::prelude::*;

verus! {

/// The summary of the host.
#[derive(Debug)]
pub struct DashboardSystemInfo {
    pub computer_name: String,
    /// The uptime in hours and minutes, as `uptime_text` writes it.
    pub uptime: String,
    /// The mean over all cores, in hundredths of a percent.
    pub cpu_usage: u32,
    /// Hundredths of a percent.
    pub memory_usage: u128,
    pub memory_total: u64,
    pub memory_used: u64,
}

/// One disk with the space that is used on it.
#[derive(Debug)]
pub struct DashboardDiskInfo {
    pub name: String,
    pub mount_point: String,
    pub total: u64,
    pub used: u64,
    /// Hundredths of a percent.
    pub usage_percent: u128,
}

/// An uptime in whole hours and the minutes beyond them, such as `3h 7m`.
pub open spec fn uptime_text(seconds: u64) -> Seq<char> {
    decimal_text((seconds / 3600) as nat) + "h "@ + decimal_text(((seconds % 3600) / 60) as nat)
        + "m"@
}

/// An uptime in whole hours and the minutes beyond them.
pub fn format_uptime(seconds: u64) -> (text: String)
    ensures
        text@ == uptime_text(seconds),
{
    let mut text = String::new();
    push_decimal(&mut text, seconds / 3600);
    text.append("h ");
    push_decimal(&mut text, (seconds % 3600) / 60);
    text.append("m");
    text
}

/// The sum of the values.
pub open spec fn sum_of(values: Seq<u32>) -> nat
    decreases values.len(),
{
    if values.len() == 0 {
        0
    } else {
        sum_of(values.drop_last()) + values.last() as nat
    }
}

/// The mean of the values, rounded down; zero where there are none.
pub open spec fn mean_of(values: Seq<u32>) -> nat {
    if values.len() == 0 {
        0
    } else {
        sum_of(values) / values.len()
    }
}

/// The mean of the values, rounded down; zero where there are none.
pub fn mean(values: &Vec<u32>) -> (result: u32)
    ensures
        result == mean_of(values@),
{
    if values.len() == 0 {
        return 0;
    }
    let mut sum: u128 = 0;
    let mut i: usize = 0;
    while i < values.len()
        invariant
            i <= values.len(),
            sum == sum_of(values@.take(i as int)),
            sum <= i * u32::MAX,
        decreases values.len() - i,
    {
        proof {
            let head = values@.take(i + 1);
            assert(head.last() == values@[i as int]);
            assert(head.drop_last() =~= values@.take(i as int));
        }
        sum = sum + values[i] as u128;
        i += 1;
    }
    assert(values@.take(values.len() as int) =~= values@);
    let count = values.len() as u128;
    let result = sum / count;
    assert(result <= u32::MAX) by (nonlinear_arith)
        requires
            result == sum / count,
            sum <= count * u32::MAX,
            count > 0,
    ;
    result as u32
}

/// The summary of the host: the name, or `Unknown` where the host has none
/// as text; the uptime as text; the mean load of the cores; and the memory.
pub fn summarize(
    computer_name: Option<String>,
    uptime: u64,
    cpu_usage: &Vec<u32>,
    total_memory: u64,
    used_memory: u64,
) -> (summary: DashboardSystemInfo)
    ensures
        summary.computer_name@ == match computer_name {
            Some(name) => name@,
            None => "Unknown"@,
        },
        summary.uptime@ == uptime_text(uptime),
        summary.cpu_usage == mean_of(cpu_usage@),
        summary.memory_usage == percent_of(used_memory, total_memory),
        summary.memory_total == total_memory,
        summary.memory_used == used_memory,
{
    DashboardSystemInfo {
        computer_name: match computer_name {
            Some(name) => name,
            None => String::from_str("Unknown"),
        },
        uptime: format_uptime(uptime),
        cpu_usage: mean(cpu_usage),
        memory_usage: percent(used_memory, total_memory),
        memory_total: total_memory,
        memory_used: used_memory,
    }
}

/// The space that is used on a disk: the total less what is available, and
/// zero where more is reported available than there is in total.
pub open spec fn used_space(disk: DiskInfo) -> u64 {
    if disk.available_space <= disk.total_space {
        (disk.total_space - disk.available_space) as u64
    } else {
        0
    }
}

/// The dashboard's entry for a disk. An empty disk is used to zero percent.
pub open spec fn disk_usage_of(disk: DiskInfo) -> DashboardDiskInfo {
    DashboardDiskInfo {
        name: disk.name,
        mount_point: disk.mount_point,
        total: disk.total_space,
        used: used_space(disk),
        usage_percent: percent_of(used_space(disk), disk.total_space) as u128,
    }
}

/// The dashboard's entry for a disk.
pub fn disk_usage(disk: &DiskInfo) -> (usage: DashboardDiskInfo)
    ensures
        usage == disk_usage_of(*disk),
{
    let used = disk.total_space.saturating_sub(disk.available_space);
    DashboardDiskInfo {
        name: disk.name.clone(),
        mount_point: disk.mount_point.clone(),
        total: disk.total_space,
        used,
        usage_percent: percent(used, disk.total_space),
    }
}

/// The dashboard's entries for all disks, in their order.
pub fn disk_usages(disks: &Vec<DiskInfo>) -> (usages: Vec<DashboardDiskInfo>)
    ensures
        usages.len() == disks.len(),
        forall|i: int| 0 <= i < disks.len() ==> (#[trigger] usages[i]) == disk_usage_of(disks[i]),
{
    let mut usages: Vec<DashboardDiskInfo> = Vec::new();
    let mut i: usize = 0;
    while i < disks.len()
        invariant
            i <= disks.len(),
            usages.len() == i,
            forall|k: int| 0 <= k < i ==> (#[trigger] usages[k]) == disk_usage_of(disks[k]),
        decreases disks.len() - i,
    {
        usages.push(disk_usage(&disks[i]));
        i += 1;
    }
    usages
}

} // verus!
