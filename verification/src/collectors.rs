//! Metric records, alert levels and the state that collectors keep between
//! two polls: the previous counter readings, from which rates are taken.
use vstd::prelude::*;
use crate::config::LogsConfig;
use crate::platform::api::{RawCpuStat, RawDiskStat, RawNetConnections, RawNetStat};
use crate::text::{chars_of, contains, contains_exec, sat_sub_spec, str_eq};

verus! {

broadcast use vstd::string::group_string_axioms;

/// Severity of an alert or of a log entry.
#[derive(Debug, Clone, Copy, PartialEq, Eq, Structural)]
pub enum AlertLevel {
    Info,
    Warning,
    Critical,
}

impl Default for AlertLevel {
    /// `Info`.
    fn default() -> (r: Self)
        ensures
            r == AlertLevel::Info,
    {
        AlertLevel::Info
    }
}

/// A raised alert.
#[derive(Debug, Clone)]
pub struct Alert {
    pub level: AlertLevel,
    pub message: String,
}

/// One system or file log line.
#[derive(Debug, Clone)]
pub struct LogEntry {
    pub timestamp: i64,
    pub level: AlertLevel,
    pub source: String,
    pub origin: String,
    pub message: String,
}

/// The log lines of one poll.
#[derive(Debug, Clone)]
pub struct LogsMetrics {
    pub timestamp: i64,
    pub system_events: Vec<LogEntry>,
}

/// How many alerts of `s` have `level`.
pub open spec fn level_count(s: Seq<Alert>, level: AlertLevel) -> nat
    decreases s.len(),
{
    if s.len() == 0 {
        0
    } else {
        level_count(s.drop_last(), level) + if s.last().level == level {
            1nat
        } else {
            0nat
        }
    }
}

proof fn lemma_level_count_bound(s: Seq<Alert>, level: AlertLevel)
    ensures
        level_count(s, level) <= s.len(),
    decreases s.len(),
{
    if s.len() > 0 {
        lemma_level_count_bound(s.drop_last(), level);
    }
}

/// The number of info, warning and critical alerts, in that order.
pub fn count_alert_levels(alerts: &Vec<Alert>) -> (r: (usize, usize, usize))
    ensures
        r.0 == level_count(alerts@, AlertLevel::Info),
        r.1 == level_count(alerts@, AlertLevel::Warning),
        r.2 == level_count(alerts@, AlertLevel::Critical),
{
    let mut info: usize = 0;
    let mut warning: usize = 0;
    let mut critical: usize = 0;
    let mut i: usize = 0;
    while i < alerts.len()
        invariant
            i <= alerts.len(),
            info == level_count(alerts@.take(i as int), AlertLevel::Info),
            warning == level_count(alerts@.take(i as int), AlertLevel::Warning),
            critical == level_count(alerts@.take(i as int), AlertLevel::Critical),
        decreases alerts.len() - i,
    {
        let ghost t = alerts@.take(i + 1);
        assert(t.drop_last() =~= alerts@.take(i as int));
        proof {
            lemma_level_count_bound(alerts@.take(i as int), AlertLevel::Info);
            lemma_level_count_bound(alerts@.take(i as int), AlertLevel::Warning);
            lemma_level_count_bound(alerts@.take(i as int), AlertLevel::Critical);
        }
        match alerts[i].level {
            AlertLevel::Info => info += 1,
            AlertLevel::Warning => warning += 1,
            AlertLevel::Critical => critical += 1,
        }
        i += 1;
    }
    assert(alerts@.take(alerts.len() as int) =~= alerts@);
    (info, warning, critical)
}

/// Every alert has exactly one level, so the three counts add up to the
/// number of alerts.
pub proof fn law_alert_counts_partition(s: Seq<Alert>)
    ensures
        level_count(s, AlertLevel::Info) + level_count(s, AlertLevel::Warning) + level_count(
            s,
            AlertLevel::Critical,
        ) == s.len(),
    decreases s.len(),
{
    if s.len() > 0 {
        law_alert_counts_partition(s.drop_last());
    }
}

/// Scheduling state of a process as `/proc/<pid>/stat` reports it.
#[derive(Debug, Clone, Copy, PartialEq, Eq, Structural)]
pub enum ProcessState {
    Running,
    Sleeping,
    DiskSleep,
    Zombie,
    Stopped,
    TracingStop,
    Unknown,
}

impl Default for ProcessState {
    /// `Unknown`.
    fn default() -> (r: Self)
        ensures
            r == ProcessState::Unknown,
    {
        ProcessState::Unknown
    }
}

pub open spec fn state_spec(c: char) -> ProcessState {
    if c == 'R' {
        ProcessState::Running
    } else if c == 'S' {
        ProcessState::Sleeping
    } else if c == 'D' {
        ProcessState::DiskSleep
    } else if c == 'Z' {
        ProcessState::Zombie
    } else if c == 'T' {
        ProcessState::Stopped
    } else if c == 't' {
        ProcessState::TracingStop
    } else {
        ProcessState::Unknown
    }
}

/// The state named by the one-letter code of `/proc/<pid>/stat`.
pub fn state_from_char(c: char) -> (r: ProcessState)
    ensures
        r == state_spec(c),
{
    match c {
        'R' => ProcessState::Running,
        'S' => ProcessState::Sleeping,
        'D' => ProcessState::DiskSleep,
        'Z' => ProcessState::Zombie,
        'T' => ProcessState::Stopped,
        't' => ProcessState::TracingStop,
        _ => ProcessState::Unknown,
    }
}

/// A process is taken for a JVM when detection is on and `java` occurs in
/// its name or command line, or `jvm` in its command line.
pub open spec fn jvm_spec(detection: bool, name: Seq<char>, cmdline: Seq<char>) -> bool {
    detection && (contains(name, seq!['j', 'a', 'v', 'a']) || contains(
        cmdline,
        seq!['j', 'a', 'v', 'a'],
    ) || contains(cmdline, seq!['j', 'v', 'm']))
}

/// Whether a process is reported as a JVM.
pub fn is_jvm_process(detection: bool, name: &str, cmdline: &str) -> (r: bool)
    ensures
        r == jvm_spec(detection, name@, cmdline@),
{
    if !detection {
        return false;
    }
    let java = chars_of("java");
    let jvm = chars_of("jvm");
    proof {
        reveal_strlit("java");
        reveal_strlit("jvm");
        assert(java@ =~= seq!['j', 'a', 'v', 'a']);
        assert(jvm@ =~= seq!['j', 'v', 'm']);
    }
    let n = chars_of(name);
    let c = chars_of(cmdline);
    contains_exec(&n, &java) || contains_exec(&c, &java) || contains_exec(&c, &jvm)
}

/// Whether a process is listed: every process, or only the watched one.
pub fn process_is_watched(watched_pid: Option<u32>, pid: u32) -> (r: bool)
    ensures
        r == match watched_pid {
            Some(w) => w == pid,
            None => true,
        },
{
    match watched_pid {
        Some(w) => w == pid,
        None => true,
    }
}

/// Resident memory in KiB from a page count (the product must fit).
pub fn rss_kb(rss_pages: u64, page_size: u64) -> (r: u64)
    requires
        rss_pages * page_size <= u64::MAX,
    ensures
        r == rss_pages * page_size / 1024,
{
    rss_pages * page_size / 1024
}

/// Per-interface network figures of one poll.
#[derive(Debug, Clone)]
pub struct NetworkMetrics {
    pub timestamp: i64,
    pub interface: String,
    pub rx_bytes_sec: u64,
    pub tx_bytes_sec: u64,
    pub rx_packets_sec: u64,
    pub tx_packets_sec: u64,
    pub rx_errors: u64,
    pub tx_errors: u64,
    pub rx_dropped: u64,
    pub tx_dropped: u64,
    pub connections_total: u32,
    pub connections_established: u32,
    pub tcp_syn_sent: u32,
    pub tcp_syn_recv: u32,
    pub tcp_fin_wait1: u32,
    pub tcp_fin_wait2: u32,
    pub tcp_time_wait: u32,
    pub tcp_close: u32,
    pub tcp_close_wait: u32,
    pub tcp_last_ack: u32,
    pub tcp_listen: u32,
    pub tcp_closing: u32,
    pub tcp_other: u32,
    pub udp_total: u32,
    pub udp_established: u32,
    pub udp_close: u32,
    pub udp_other: u32,
    pub retrans_segs: u64,
}

/// Rates of one interface: received and sent bytes, then received and
/// sent packets, per second.
pub struct NetRates {
    pub rx_bytes_sec: u64,
    pub tx_bytes_sec: u64,
    pub rx_packets_sec: u64,
    pub tx_packets_sec: u64,
}

/// The figures of interface `iface`: its rates, its error and drop counters
/// and the host-wide socket counts.
pub fn network_metrics(
    timestamp: i64,
    iface: &RawNetStat,
    rates: &NetRates,
    connections: &RawNetConnections,
) -> (r: NetworkMetrics)
    ensures
        r.timestamp == timestamp,
        r.interface@ == iface.interface@,
        r.rx_bytes_sec == rates.rx_bytes_sec,
        r.tx_bytes_sec == rates.tx_bytes_sec,
        r.rx_packets_sec == rates.rx_packets_sec,
        r.tx_packets_sec == rates.tx_packets_sec,
        r.rx_errors == iface.rx_errors,
        r.tx_errors == iface.tx_errors,
        r.rx_dropped == iface.rx_dropped,
        r.tx_dropped == iface.tx_dropped,
        r.connections_total == connections.total,
        r.connections_established == connections.established,
        r.tcp_syn_sent == connections.tcp_syn_sent,
        r.tcp_syn_recv == connections.tcp_syn_recv,
        r.tcp_fin_wait1 == connections.tcp_fin_wait1,
        r.tcp_fin_wait2 == connections.tcp_fin_wait2,
        r.tcp_time_wait == connections.tcp_time_wait,
        r.tcp_close == connections.tcp_close,
        r.tcp_close_wait == connections.tcp_close_wait,
        r.tcp_last_ack == connections.tcp_last_ack,
        r.tcp_listen == connections.tcp_listen,
        r.tcp_closing == connections.tcp_closing,
        r.tcp_other == connections.tcp_other,
        r.udp_total == connections.udp_total,
        r.udp_established == connections.udp_established,
        r.udp_close == connections.udp_close,
        r.udp_other == connections.udp_other,
        r.retrans_segs == connections.retrans_segs,
{
    NetworkMetrics {
        timestamp,
        interface: iface.interface.clone(),
        rx_bytes_sec: rates.rx_bytes_sec,
        tx_bytes_sec: rates.tx_bytes_sec,
        rx_packets_sec: rates.rx_packets_sec,
        tx_packets_sec: rates.tx_packets_sec,
        rx_errors: iface.rx_errors,
        tx_errors: iface.tx_errors,
        rx_dropped: iface.rx_dropped,
        tx_dropped: iface.tx_dropped,
        connections_total: connections.total,
        connections_established: connections.established,
        tcp_syn_sent: connections.tcp_syn_sent,
        tcp_syn_recv: connections.tcp_syn_recv,
        tcp_fin_wait1: connections.tcp_fin_wait1,
        tcp_fin_wait2: connections.tcp_fin_wait2,
        tcp_time_wait: connections.tcp_time_wait,
        tcp_close: connections.tcp_close,
        tcp_close_wait: connections.tcp_close_wait,
        tcp_last_ack: connections.tcp_last_ack,
        tcp_listen: connections.tcp_listen,
        tcp_closing: connections.tcp_closing,
        tcp_other: connections.tcp_other,
        udp_total: connections.udp_total,
        udp_established: connections.udp_established,
        udp_close: connections.udp_close,
        udp_other: connections.udp_other,
        retrans_segs: connections.retrans_segs,
    }
}

/// Host identity of one poll.
#[derive(Debug, Clone)]
pub struct SystemMetrics {
    pub timestamp: i64,
    pub hostname: String,
    pub os_name: String,
    pub os_version: String,
    pub kernel_version: String,
    pub uptime_seconds: u64,
    pub cpu_count: u32,
    pub architecture: String,
}

// ─── Counter deltas ─────────────────────────────────────────────────────────
/// Growth of each CPU counter between two readings, and of their total;
/// a counter that went back counts as no growth.
#[derive(Debug, Clone, Copy, PartialEq, Eq, Structural)]
pub struct CpuDeltas {
    pub total: u64,
    pub user: u64,
    pub nice: u64,
    pub system: u64,
    pub idle: u64,
    pub iowait: u64,
    pub irq: u64,
    pub softirq: u64,
    pub steal: u64,
}

pub open spec fn cpu_deltas_spec(cur: RawCpuStat, prev: RawCpuStat) -> CpuDeltas {
    CpuDeltas {
        total: sat_sub_spec(cur.total_spec() as u64, prev.total_spec() as u64),
        user: sat_sub_spec(cur.user, prev.user),
        nice: sat_sub_spec(cur.nice, prev.nice),
        system: sat_sub_spec(cur.system, prev.system),
        idle: sat_sub_spec(cur.idle, prev.idle),
        iowait: sat_sub_spec(cur.iowait, prev.iowait),
        irq: sat_sub_spec(cur.irq, prev.irq),
        softirq: sat_sub_spec(cur.softirq, prev.softirq),
        steal: sat_sub_spec(cur.steal, prev.steal),
    }
}

/// The counter growth from `prev` to `cur` (both totals must fit).
pub fn cpu_deltas(cur: &RawCpuStat, prev: &RawCpuStat) -> (r: CpuDeltas)
    requires
        cur.total_spec() <= u64::MAX,
        prev.total_spec() <= u64::MAX,
    ensures
        r == cpu_deltas_spec(*cur, *prev),
{
    CpuDeltas {
        total: cur.total().saturating_sub(prev.total()),
        user: cur.user.saturating_sub(prev.user),
        nice: cur.nice.saturating_sub(prev.nice),
        system: cur.system.saturating_sub(prev.system),
        idle: cur.idle.saturating_sub(prev.idle),
        iowait: cur.iowait.saturating_sub(prev.iowait),
        irq: cur.irq.saturating_sub(prev.irq),
        softirq: cur.softirq.saturating_sub(prev.softirq),
        steal: cur.steal.saturating_sub(prev.steal),
    }
}

/// When no counter went back, the growth of the total is the sum of the
/// growths of the eight modes, each the plain difference of its counters;
/// so the modes' shares of the total add up to the whole.
pub proof fn law_cpu_total_is_the_sum_of_the_modes(cur: RawCpuStat, prev: RawCpuStat)
    requires
        cur.total_spec() <= u64::MAX,
        prev.total_spec() <= u64::MAX,
        prev.user <= cur.user,
        prev.nice <= cur.nice,
        prev.system <= cur.system,
        prev.idle <= cur.idle,
        prev.iowait <= cur.iowait,
        prev.irq <= cur.irq,
        prev.softirq <= cur.softirq,
        prev.steal <= cur.steal,
    ensures
        ({
            let d = cpu_deltas_spec(cur, prev);
            &&& d.total as int == d.user + d.nice + d.system + d.idle + d.iowait + d.irq + d.softirq + d.steal
            &&& d.user == cur.user - prev.user
            &&& d.nice == cur.nice - prev.nice
            &&& d.system == cur.system - prev.system
            &&& d.idle == cur.idle - prev.idle
            &&& d.iowait == cur.iowait - prev.iowait
            &&& d.irq == cur.irq - prev.irq
            &&& d.softirq == cur.softirq - prev.softirq
            &&& d.steal == cur.steal - prev.steal
        }),
{
}

/// Growth of the counters of one disk between two readings; sectors are
/// turned into KiB (512-byte sectors).
#[derive(Debug, Clone, Copy, PartialEq, Eq, Structural)]
pub struct DiskDeltas {
    pub reads: u64,
    pub writes: u64,
    pub reads_merged: u64,
    pub writes_merged: u64,
    pub read_kb: u64,
    pub write_kb: u64,
    pub read_time_ms: u64,
    pub write_time_ms: u64,
    pub io_ticks: u64,
    pub weighted_io_time_ms: u64,
}

/// Whether the sector growth of `cur` over `prev`, in bytes, fits a `u64`.
pub open spec fn disk_deltas_fit(cur: RawDiskStat, prev: RawDiskStat) -> bool {
    &&& sat_sub_spec(cur.reads_sectors, prev.reads_sectors) * 512 <= u64::MAX
    &&& sat_sub_spec(cur.writes_sectors, prev.writes_sectors) * 512 <= u64::MAX
}

pub open spec fn disk_deltas_spec(cur: RawDiskStat, prev: RawDiskStat) -> DiskDeltas {
    DiskDeltas {
        reads: sat_sub_spec(cur.reads_completed, prev.reads_completed),
        writes: sat_sub_spec(cur.writes_completed, prev.writes_completed),
        reads_merged: sat_sub_spec(cur.reads_merged, prev.reads_merged),
        writes_merged: sat_sub_spec(cur.writes_merged, prev.writes_merged),
        read_kb: (sat_sub_spec(cur.reads_sectors, prev.reads_sectors) * 512 / 1024) as u64,
        write_kb: (sat_sub_spec(cur.writes_sectors, prev.writes_sectors) * 512 / 1024) as u64,
        read_time_ms: sat_sub_spec(cur.reads_time_ms, prev.reads_time_ms),
        write_time_ms: sat_sub_spec(cur.writes_time_ms, prev.writes_time_ms),
        io_ticks: sat_sub_spec(cur.io_ticks, prev.io_ticks),
        weighted_io_time_ms: sat_sub_spec(cur.weighted_io_time_ms, prev.weighted_io_time_ms),
    }
}

/// The counter growth of a disk from `prev` to `cur`.
pub fn disk_deltas(cur: &RawDiskStat, prev: &RawDiskStat) -> (r: DiskDeltas)
    requires
        disk_deltas_fit(*cur, *prev),
    ensures
        r == disk_deltas_spec(*cur, *prev),
{
    let sr = cur.reads_sectors.saturating_sub(prev.reads_sectors);
    let sw = cur.writes_sectors.saturating_sub(prev.writes_sectors);
    DiskDeltas {
        reads: cur.reads_completed.saturating_sub(prev.reads_completed),
        writes: cur.writes_completed.saturating_sub(prev.writes_completed),
        reads_merged: cur.reads_merged.saturating_sub(prev.reads_merged),
        writes_merged: cur.writes_merged.saturating_sub(prev.writes_merged),
        read_kb: sr * 512 / 1024,
        write_kb: sw * 512 / 1024,
        read_time_ms: cur.reads_time_ms.saturating_sub(prev.reads_time_ms),
        write_time_ms: cur.writes_time_ms.saturating_sub(prev.writes_time_ms),
        io_ticks: cur.io_ticks.saturating_sub(prev.io_ticks),
        weighted_io_time_ms: cur.weighted_io_time_ms.saturating_sub(prev.weighted_io_time_ms),
    }
}

/// Growth of the byte and packet counters of one interface: received and
/// sent bytes, received and sent packets.
pub fn net_deltas(cur: &RawNetStat, prev: &RawNetStat) -> (r: (u64, u64, u64, u64))
    ensures
        r == (
            sat_sub_spec(cur.rx_bytes, prev.rx_bytes),
            sat_sub_spec(cur.tx_bytes, prev.tx_bytes),
            sat_sub_spec(cur.rx_packets, prev.rx_packets),
            sat_sub_spec(cur.tx_packets, prev.tx_packets),
        ),
{
    (
        cur.rx_bytes.saturating_sub(prev.rx_bytes),
        cur.tx_bytes.saturating_sub(prev.tx_bytes),
        cur.rx_packets.saturating_sub(prev.rx_packets),
        cur.tx_packets.saturating_sub(prev.tx_packets),
    )
}

/// Time since the previous poll, on a monotonic millisecond clock: none on
/// the first poll, nor when the clock did not move.
pub open spec fn elapsed_spec(prev_at_ms: Option<u64>, now_ms: u64) -> Option<u64> {
    match prev_at_ms {
        Some(p) => if now_ms > p {
            Some((now_ms - p) as u64)
        } else {
            None
        },
        None => None,
    }
}

fn elapsed_since(prev_at_ms: Option<u64>, now_ms: u64) -> (r: Option<u64>)
    ensures
        r == elapsed_spec(prev_at_ms, now_ms),
{
    match prev_at_ms {
        Some(p) => if now_ms > p {
            Some(now_ms - p)
        } else {
            None
        },
        None => None,
    }
}

// ─── Collectors ─────────────────────────────────────────────────────────────
/// CPU collector: the previous global and per-core readings.
pub struct CpuCollector {
    pub prev_global: Option<RawCpuStat>,
    pub prev_cores: Vec<RawCpuStat>,
}

impl CpuCollector {
    /// A collector that has seen no reading yet.
    pub fn new() -> (r: Self)
        ensures
            r.prev_global is None,
            r.prev_cores@.len() == 0,
    {
        CpuCollector { prev_global: None, prev_cores: Vec::new() }
    }

    pub fn name(&self) -> (r: &'static str)
        ensures
            r@ == seq!['c', 'p', 'u'],
    {
        proof {
            reveal_strlit("cpu");
        }
        "cpu"
    }

    /// The previous reading of core `id`, if there was one.
    pub fn previous_core(&self, id: usize) -> (r: Option<RawCpuStat>)
        ensures
            r == if id < self.prev_cores@.len() {
                Some(self.prev_cores@[id as int])
            } else {
                None::<RawCpuStat>
            },
    {
        if id < self.prev_cores.len() {
            Some(self.prev_cores[id])
        } else {
            None
        }
    }

    /// Keeps a reading as the base of the next poll.
    pub fn remember(&mut self, global: RawCpuStat, cores: Vec<RawCpuStat>)
        ensures
            final(self).prev_global == Some(global),
            final(self).prev_cores@ == cores@,
    {
        self.prev_global = Some(global);
        self.prev_cores = cores;
    }
}

impl Default for CpuCollector {
    /// No reading remembered yet.
    fn default() -> (r: Self)
        ensures
            r.prev_global is None,
            r.prev_cores@.len() == 0,
    {
        CpuCollector::new()
    }
}

/// No device occurs twice in `s`.
pub open spec fn disks_distinct(s: Seq<RawDiskStat>) -> bool {
    forall|i: int, j: int|
        0 <= i < j < s.len() ==> (#[trigger] s[i]).device@ != (#[trigger] s[j]).device@
}

/// Disk collector: the previous reading of each device, and when it was
/// taken.
pub struct DiskCollector {
    pub prev: Vec<RawDiskStat>,
    pub prev_at_ms: Option<u64>,
}

impl DiskCollector {
    /// Well formed: one previous reading per device at most.
    pub open spec fn wf(&self) -> bool {
        disks_distinct(self.prev@)
    }

    /// A collector that has seen no reading yet.
    pub fn new() -> (r: Self)
        ensures
            r.wf(),
            r.prev@.len() == 0,
            r.prev_at_ms is None,
    {
        DiskCollector { prev: Vec::new(), prev_at_ms: None }
    }

    pub fn name(&self) -> (r: &'static str)
        ensures
            r@ == seq!['d', 'i', 's', 'k'],
    {
        proof {
            reveal_strlit("disk");
        }
        "disk"
    }

    /// Where the previous reading of `device` stands, if there is one.
    pub fn previous(&self, device: &str) -> (r: Option<usize>)
        ensures
            match r {
                Some(i) => i < self.prev@.len() && self.prev@[i as int].device@ == device@,
                None => forall|i: int|
                    0 <= i < self.prev@.len() ==> (#[trigger] self.prev@[i]).device@ != device@,
            },
    {
        let mut i: usize = 0;
        while i < self.prev.len()
            invariant
                i <= self.prev@.len(),
                forall|k: int| 0 <= k < i ==> (#[trigger] self.prev@[k]).device@ != device@,
            decreases self.prev.len() - i,
        {
            if str_eq(self.prev[i].device.as_str(), device) {
                return Some(i);
            }
            i += 1;
        }
        None
    }

    /// Keeps `stat` as the previous reading of its device, in place of an
    /// older one.
    pub fn remember(&mut self, stat: RawDiskStat)
        requires
            old(self).wf(),
        ensures
            final(self).wf(),
            final(self).prev_at_ms == old(self).prev_at_ms,
            (exists|i: int|
                0 <= i < old(self).prev@.len() && (#[trigger] old(self).prev@[i]).device@
                    == stat.device@ && final(self).prev@ == old(self).prev@.update(i, stat)) || ((
            forall|i: int|
                0 <= i < old(self).prev@.len() ==> (#[trigger] old(self).prev@[i]).device@
                    != stat.device@) && final(self).prev@ == old(self).prev@.push(stat)),
    {
        match self.previous(stat.device.as_str()) {
            Some(i) => {
                let ghost before = self.prev@;
                self.prev.set(i, stat);
                assert(self.prev@ == before.update(i as int, stat));
            },
            None => {
                let ghost before = self.prev@;
                self.prev.push(stat);
                assert(self.prev@ == before.push(stat));
            },
        }
    }

    /// Time since the previous poll, if there was one and the clock moved.
    pub fn elapsed_ms(&self, now_ms: u64) -> (r: Option<u64>)
        ensures
            r == elapsed_spec(self.prev_at_ms, now_ms),
    {
        elapsed_since(self.prev_at_ms, now_ms)
    }

    /// Records when this poll was taken.
    pub fn mark_polled(&mut self, now_ms: u64)
        ensures
            final(self).prev_at_ms == Some(now_ms),
            final(self).prev@ == old(self).prev@,
    {
        self.prev_at_ms = Some(now_ms);
    }
}

impl Default for DiskCollector {
    /// No reading remembered yet.
    fn default() -> (r: Self)
        ensures
            r.wf(),
            r.prev@.len() == 0,
            r.prev_at_ms is None,
    {
        DiskCollector::new()
    }
}

/// No interface occurs twice in `s`.
pub open spec fn nets_distinct(s: Seq<RawNetStat>) -> bool {
    forall|i: int, j: int|
        0 <= i < j < s.len() ==> (#[trigger] s[i]).interface@ != (#[trigger] s[j]).interface@
}

/// Network collector: the previous reading of each interface, and when it
/// was taken.
pub struct NetworkCollector {
    pub prev: Vec<RawNetStat>,
    pub prev_at_ms: Option<u64>,
}

impl NetworkCollector {
    /// Well formed: one previous reading per interface at most.
    pub open spec fn wf(&self) -> bool {
        nets_distinct(self.prev@)
    }

    /// A collector that has seen no reading yet.
    pub fn new() -> (r: Self)
        ensures
            r.wf(),
            r.prev@.len() == 0,
            r.prev_at_ms is None,
    {
        NetworkCollector { prev: Vec::new(), prev_at_ms: None }
    }

    pub fn name(&self) -> (r: &'static str)
        ensures
            r@ == seq!['n', 'e', 't', 'w', 'o', 'r', 'k'],
    {
        proof {
            reveal_strlit("network");
        }
        "network"
    }

    /// Where the previous reading of `interface` stands, if there is one.
    pub fn previous(&self, interface: &str) -> (r: Option<usize>)
        ensures
            match r {
                Some(i) => i < self.prev@.len() && self.prev@[i as int].interface@ == interface@,
                None => forall|i: int|
                    0 <= i < self.prev@.len() ==> (#[trigger] self.prev@[i]).interface@
                        != interface@,
            },
    {
        let mut i: usize = 0;
        while i < self.prev.len()
            invariant
                i <= self.prev@.len(),
                forall|k: int| 0 <= k < i ==> (#[trigger] self.prev@[k]).interface@ != interface@,
            decreases self.prev.len() - i,
        {
            if str_eq(self.prev[i].interface.as_str(), interface) {
                return Some(i);
            }
            i += 1;
        }
        None
    }

    /// Keeps `stat` as the previous reading of its interface, in place of an
    /// older one.
    pub fn remember(&mut self, stat: RawNetStat)
        requires
            old(self).wf(),
        ensures
            final(self).wf(),
            final(self).prev_at_ms == old(self).prev_at_ms,
            (exists|i: int|
                0 <= i < old(self).prev@.len() && (#[trigger] old(self).prev@[i]).interface@
                    == stat.interface@ && final(self).prev@ == old(self).prev@.update(i, stat)) || ((
            forall|i: int|
                0 <= i < old(self).prev@.len() ==> (#[trigger] old(self).prev@[i]).interface@
                    != stat.interface@) && final(self).prev@ == old(self).prev@.push(stat)),
    {
        match self.previous(stat.interface.as_str()) {
            Some(i) => {
                let ghost before = self.prev@;
                self.prev.set(i, stat);
                assert(self.prev@ == before.update(i as int, stat));
            },
            None => {
                let ghost before = self.prev@;
                self.prev.push(stat);
                assert(self.prev@ == before.push(stat));
            },
        }
    }

    /// Time since the previous poll, if there was one and the clock moved.
    pub fn elapsed_ms(&self, now_ms: u64) -> (r: Option<u64>)
        ensures
            r == elapsed_spec(self.prev_at_ms, now_ms),
    {
        elapsed_since(self.prev_at_ms, now_ms)
    }

    /// Records when this poll was taken.
    pub fn mark_polled(&mut self, now_ms: u64)
        ensures
            final(self).prev_at_ms == Some(now_ms),
            final(self).prev@ == old(self).prev@,
    {
        self.prev_at_ms = Some(now_ms);
    }
}

impl Default for NetworkCollector {
    /// No reading remembered yet.
    fn default() -> (r: Self)
        ensures
            r.wf(),
            r.prev@.len() == 0,
            r.prev_at_ms is None,
    {
        NetworkCollector::new()
    }
}

/// Linux-specific collector (pressure stall and cgroup figures).
pub struct LinuxCollector;

impl LinuxCollector {
    pub fn new() -> (r: Self) {
        LinuxCollector
    }

    pub fn name(&self) -> (r: &'static str)
        ensures
            r@ == seq!['l', 'i', 'n', 'u', 'x'],
    {
        proof {
            reveal_strlit("linux");
        }
        "linux"
    }
}

impl Default for LinuxCollector {
    fn default() -> (r: Self)
        ensures
            r == LinuxCollector,
    {
        LinuxCollector
    }
}

/// Memory collector.
pub struct MemoryCollector;

impl MemoryCollector {
    pub fn new() -> (r: Self) {
        MemoryCollector
    }

    pub fn name(&self) -> (r: &'static str)
        ensures
            r@ == seq!['m', 'e', 'm', 'o', 'r', 'y'],
    {
        proof {
            reveal_strlit("memory");
        }
        "memory"
    }
}

impl Default for MemoryCollector {
    fn default() -> (r: Self)
        ensures
            r == MemoryCollector,
    {
        MemoryCollector
    }
}

/// Host identity collector.
pub struct SystemCollector;

impl SystemCollector {
    pub fn new() -> (r: Self) {
        SystemCollector
    }

    pub fn name(&self) -> (r: &'static str)
        ensures
            r@ == seq!['s', 'y', 's', 't', 'e', 'm'],
    {
        proof {
            reveal_strlit("system");
        }
        "system"
    }
}

impl Default for SystemCollector {
    fn default() -> (r: Self)
        ensures
            r == SystemCollector,
    {
        SystemCollector
    }
}

/// Log collector, with its settings.
pub struct LogsCollector {
    pub config: LogsConfig,
}

impl LogsCollector {
    pub fn new(config: LogsConfig) -> (r: Self)
        ensures
            r.config == config,
    {
        LogsCollector { config }
    }

    pub fn name(&self) -> (r: &'static str)
        ensures
            r@ == seq!['l', 'o', 'g', 's'],
    {
        proof {
            reveal_strlit("logs");
        }
        "logs"
    }
}

} // verus!
