//! Raw counter readings shared by all platforms.
use vstd::prelude::*;

verus! {

/// Raw CPU counter snapshot for delta computation.
#[derive(Debug, Clone, Copy, PartialEq, Eq, Structural)]
pub struct RawCpuStat {
    pub user: u64,
    pub nice: u64,
    pub system: u64,
    pub idle: u64,
    pub iowait: u64,
    pub irq: u64,
    pub softirq: u64,
    pub steal: u64,
}

impl RawCpuStat {
    /// The sum of all eight counters.
    pub open spec fn total_spec(&self) -> int {
        self.user + self.nice + self.system + self.idle + self.iowait + self.irq + self.softirq
            + self.steal
    }

    /// A reading with every counter at zero.
    pub fn zero() -> (r: Self)
        ensures
            r.total_spec() == 0,
            r == (RawCpuStat {
                user: 0,
                nice: 0,
                system: 0,
                idle: 0,
                iowait: 0,
                irq: 0,
                softirq: 0,
                steal: 0,
            }),
    {
        RawCpuStat { user: 0, nice: 0, system: 0, idle: 0, iowait: 0, irq: 0, softirq: 0, steal: 0 }
    }

    /// Total jiffies: the sum of all counters (it must fit in a `u64`).
    pub fn total(&self) -> (r: u64)
        requires
            self.total_spec() <= u64::MAX,
        ensures
            r == self.total_spec(),
    {
        self.user + self.nice + self.system + self.idle + self.iowait + self.irq + self.softirq
            + self.steal
    }
}

/// One disk device reading (counter snapshot, not rate).
#[derive(Debug, Clone)]
pub struct RawDiskStat {
    pub device: String,
    pub reads_completed: u64,
    pub reads_merged: u64,
    pub reads_sectors: u64,
    pub reads_time_ms: u64,
    pub writes_completed: u64,
    pub writes_merged: u64,
    pub writes_sectors: u64,
    pub writes_time_ms: u64,
    pub io_ticks: u64,
    pub weighted_io_time_ms: u64,
}

/// Block-device inventory entry.
#[derive(Debug, Clone)]
pub struct RawDiskInventory {
    pub device: String,
    pub parent: Option<String>,
    pub structure: String,
    pub volume_kind: String,
    pub filesystem: String,
    pub filesystem_family: String,
    pub label: String,
    pub uuid: String,
    pub part_uuid: String,
    pub model: String,
    pub serial: String,
    pub transport: String,
    pub reference: String,
    pub scheduler: String,
    pub rotational: Option<bool>,
    pub removable: Option<bool>,
    pub read_only: Option<bool>,
    pub mount_points: Vec<String>,
    pub logical_stack: Vec<String>,
    pub slaves: Vec<String>,
    pub holders: Vec<String>,
    pub children: Vec<String>,
}

/// One network interface reading (counter snapshot, not rate).
#[derive(Debug, Clone)]
pub struct RawNetStat {
    pub interface: String,
    pub rx_bytes: u64,
    pub rx_packets: u64,
    pub rx_errors: u64,
    pub rx_dropped: u64,
    pub tx_bytes: u64,
    pub tx_packets: u64,
    pub tx_errors: u64,
    pub tx_dropped: u64,
}

/// Socket counts by protocol and TCP state.
#[derive(Debug, Clone, Copy, PartialEq, Eq, Structural)]
pub struct RawNetConnections {
    pub total: u32,
    pub established: u32,
    pub tcp_syn_sent: u32,
    pub tcp_syn_recv: u32,
    pub tcp_fin_wait1: u32,
    pub tcp_fin_wait2: u32,
    pub tcp_time_wait: u32,
    pub tcp_close: u32,
    pub tcp_close_wait: u32,
    pub tcp_last_ack: u32,
    pub tcp_listen: u32,
    pub tcp_closing: u32,
    pub tcp_other: u32,
    pub udp_total: u32,
    pub udp_established: u32,
    pub udp_close: u32,
    pub udp_other: u32,
    pub retrans_segs: u64,
}

impl RawNetConnections {
    /// Every count at zero.
    pub open spec fn zero_spec() -> RawNetConnections {
        RawNetConnections {
            total: 0,
            established: 0,
            tcp_syn_sent: 0,
            tcp_syn_recv: 0,
            tcp_fin_wait1: 0,
            tcp_fin_wait2: 0,
            tcp_time_wait: 0,
            tcp_close: 0,
            tcp_close_wait: 0,
            tcp_last_ack: 0,
            tcp_listen: 0,
            tcp_closing: 0,
            tcp_other: 0,
            udp_total: 0,
            udp_established: 0,
            udp_close: 0,
            udp_other: 0,
            retrans_segs: 0,
        }
    }

    /// Every count at zero.
    pub fn zero() -> (r: Self)
        ensures
            r == Self::zero_spec(),
    {
        RawNetConnections {
            total: 0,
            established: 0,
            tcp_syn_sent: 0,
            tcp_syn_recv: 0,
            tcp_fin_wait1: 0,
            tcp_fin_wait2: 0,
            tcp_time_wait: 0,
            tcp_close: 0,
            tcp_close_wait: 0,
            tcp_last_ack: 0,
            tcp_listen: 0,
            tcp_closing: 0,
            tcp_other: 0,
            udp_total: 0,
            udp_established: 0,
            udp_close: 0,
            udp_other: 0,
            retrans_segs: 0,
        }
    }
}

impl Default for RawNetConnections {
    /// Every count at zero.
    fn default() -> (r: Self)
        ensures
            r == Self::zero_spec(),
    {
        Self::zero()
    }
}

/// Host identity and uptime.
#[derive(Debug, Clone)]
pub struct RawSystemInfo {
    pub hostname: String,
    pub os_name: String,
    pub os_version: String,
    pub kernel_version: String,
    pub uptime_seconds: u64,
    pub cpu_count: u32,
    pub architecture: String,
}

} // verus!
