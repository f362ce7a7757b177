//! The snapshot exports. The CSV rows and the Prometheus exposition are
//! laid out here, in their order, from the figures of one snapshot; the
//! fractional figures come already written, with their precision.
use vstd::prelude::*;
use crate::exporters::{
    csv_rows_spec, csv_text, escape_label, escape_spec, gauge_header, gauge_header_spec,
    label_views, metric_label, metric_label_spec, row_views, sample_line, sample_spec,
};
use crate::text::{decimal, push_str, str_eq, u64_text};

verus! {

broadcast use vstd::string::group_string_axioms;

/// One core's usage, as written.
pub struct CoreFigure {
    pub id: usize,
    pub usage: String,
}

/// The CPU figures of a snapshot.
pub struct CpuFigures {
    pub usage: String,
    pub load_1: String,
    pub load_5: String,
    pub load_15: String,
    pub iowait: String,
    pub steal: String,
    pub mode_user: String,
    pub mode_nice: String,
    pub mode_system: String,
    pub mode_idle: String,
    pub mode_iowait: String,
    pub mode_irq: String,
    pub mode_softirq: String,
    pub mode_steal: String,
    pub context_switches: u64,
    pub interrupts: u64,
    pub cores: Vec<CoreFigure>,
}

/// The memory figures of a snapshot, in KiB.
pub struct MemoryFigures {
    pub total_kb: u64,
    pub used_kb: u64,
    pub usage: String,
    pub available_kb: u64,
    pub cached_kb: u64,
    pub buffers_kb: u64,
    pub swap_used_kb: u64,
    pub dirty_kb: u64,
    pub vm_pgfault: u64,
    pub vm_pgmajfault: u64,
    pub vm_pgpgin: u64,
    pub vm_pgpgout: u64,
    pub vm_pswpin: u64,
    pub vm_pswpout: u64,
    pub vm_pgscan: u64,
    pub vm_pgsteal: u64,
}

/// One disk: its names and classification, its rates and its written
/// fractional figures.
pub struct DiskFigures {
    pub device: String,
    pub mount_point: String,
    pub structure: String,
    pub protocol: String,
    pub media: String,
    pub volume_kind: String,
    pub filesystem_family: String,
    pub scheduler: String,
    pub stack_depth: usize,
    pub children_count: usize,
    pub holders_count: usize,
    pub slaves_count: usize,
    pub rotational: bool,
    pub removable: bool,
    pub read_only: bool,
    pub used_bytes: String,
    pub free_bytes: String,
    pub usage: String,
    pub read_iops: u64,
    pub write_iops: u64,
    pub read_kb_sec: u64,
    pub write_kb_sec: u64,
    pub await_ms: String,
    pub service_time_ms: String,
    pub queue_depth: String,
    pub util: String,
    pub read_merged_ops_sec: u64,
    pub write_merged_ops_sec: u64,
}

/// One network interface: its names and classification, rates, counters
/// and the host's socket counts.
pub struct NetFigures {
    pub interface: String,
    pub topology: String,
    pub family: String,
    pub medium: String,
    pub rx_bytes_sec: u64,
    pub tx_bytes_sec: u64,
    pub rx_packets_sec: u64,
    pub tx_packets_sec: u64,
    pub rx_errors: u64,
    pub tx_errors: u64,
    pub rx_dropped: u64,
    pub tx_dropped: u64,
    pub connections_total: u32,
    pub connections_established: u32,
    pub tcp_syn_sent: u32,
    pub tcp_syn_recv: u32,
    pub tcp_fin_wait1: u32,
    pub tcp_fin_wait2: u32,
    pub tcp_time_wait: u32,
    pub tcp_close: u32,
    pub tcp_close_wait: u32,
    pub tcp_last_ack: u32,
    pub tcp_listen: u32,
    pub tcp_closing: u32,
    pub tcp_other: u32,
    pub udp_total: u32,
    pub udp_established: u32,
    pub udp_close: u32,
    pub udp_other: u32,
    pub retrans_segs: u64,
}

/// One process of the snapshot.
pub struct ProcessFigures {
    pub pid: u32,
    pub cpu_pct: String,
    pub rss_kb: u64,
    pub threads: u32,
    pub fds: u32,
    pub io_read_bytes: u64,
    pub io_write_bytes: u64,
}

/// Host identity.
pub struct SystemFigures {
    pub hostname: String,
    pub os_name: String,
    pub os_version: String,
    pub kernel_version: String,
    pub architecture: String,
    pub uptime_seconds: u64,
    pub cpu_count: u32,
}

/// The cgroup of the program.
pub struct CgroupFigures {
    pub version: u8,
    pub path: String,
    pub memory_current_bytes: u64,
    pub memory_max_bytes: Option<u64>,
    pub usage: String,
    pub pids_current: u64,
    pub pids_max: Option<u64>,
    pub cpu_usage_usec: u64,
    pub cpu_nr_throttled: u64,
    pub cpu_throttled_usec: u64,
}

/// One pressure-stall line: its resource (`cpu`, `memory`, `io`), its scope
/// (`some`, `full`) and its averages.
pub struct PressureFigures {
    pub resource: String,
    pub scope: String,
    pub avg10: String,
    pub avg60: String,
    pub avg300: String,
    pub total: u64,
}

/// The pipeline's figures and the alert counts.
pub struct ComputedFigures {
    pub cpu_trend_p50: String,
    pub cpu_trend_p95: String,
    pub memory_pressure: String,
    pub alerts_total: usize,
    pub alerts_info: usize,
    pub alerts_warning: usize,
    pub alerts_critical: usize,
}

/// What the exports read of a snapshot.
pub struct ExportFigures {
    pub cpu: Option<CpuFigures>,
    pub memory: Option<MemoryFigures>,
    pub disks: Vec<DiskFigures>,
    pub networks: Vec<NetFigures>,
    pub processes: Vec<ProcessFigures>,
    pub system: Option<SystemFigures>,
    pub cgroup: Option<CgroupFigures>,
    pub psi: Vec<PressureFigures>,
    pub computed: ComputedFigures,
}

// ─── Pieces of the exposition ───────────────────────────────────────────────
/// A piece of the Prometheus text: a `HELP`/`TYPE` header (`header`, name,
/// help) or a sample line (name, value, labels).
pub type PieceView = (bool, Seq<char>, Seq<char>, Seq<(Seq<char>, Seq<char>)>);

pub struct Piece {
    pub header: bool,
    pub name: &'static str,
    pub text: String,
    pub labels: Vec<(&'static str, String)>,
}

pub open spec fn piece_view(p: Piece) -> PieceView {
    (p.header, p.name@, p.text@, label_views(p.labels@))
}

pub open spec fn piece_views(s: Seq<Piece>) -> Seq<PieceView> {
    s.map_values(|p: Piece| piece_view(p))
}

pub open spec fn hdr_spec(name: &'static str, help: &'static str) -> PieceView {
    (true, name@, help@, Seq::empty())
}

pub open spec fn line_spec(
    name: &'static str,
    labels: Seq<(Seq<char>, Seq<char>)>,
    value: Seq<char>,
) -> PieceView {
    (false, name@, value, labels)
}

pub open spec fn piece_text(p: PieceView) -> Seq<char> {
    if p.0 {
        gauge_header_spec(p.1, p.2)
    } else {
        sample_spec(p.1, p.3, p.2)
    }
}

pub open spec fn pieces_text(s: Seq<PieceView>) -> Seq<char>
    decreases s.len(),
{
    if s.len() == 0 {
        Seq::empty()
    } else {
        pieces_text(s.drop_last()) + piece_text(s.last())
    }
}

fn header(name: &'static str, help: &'static str) -> (r: Piece)
    ensures
        piece_view(r) == hdr_spec(name, help),
{
    let r = Piece { header: true, name, text: help.to_owned(), labels: Vec::new() };
    assert(label_views(r.labels@) =~= Seq::<(Seq<char>, Seq<char>)>::empty());
    r
}

fn line(name: &'static str, labels: Vec<(&'static str, String)>, value: String) -> (r: Piece)
    ensures
        piece_view(r) == line_spec(name, label_views(labels@), value@),
{
    Piece { header: false, name, text: value, labels }
}

/// The text of a list of pieces.
pub fn render_pieces(ps: &Vec<Piece>) -> (r: String)
    ensures
        r@ == pieces_text(piece_views(ps@)),
{
    let ghost pv = piece_views(ps@);
    let mut out = String::new();
    let mut i: usize = 0;
    while i < ps.len()
        invariant
            i <= ps.len(),
            pv == piece_views(ps@),
            out@ == pieces_text(pv.take(i as int)),
        decreases ps.len() - i,
    {
        assert(pv.take(i + 1).drop_last() =~= pv.take(i as int));
        assert(pv.take(i + 1).last() == piece_view(ps@[i as int]));
        let p = &ps[i];
        let t = if p.header {
            gauge_header(p.name, p.text.as_str())
        } else {
            sample_line(p.name, &p.labels, p.text.as_str())
        };
        push_str(&mut out, t.as_str());
        i += 1;
    }
    assert(pv.take(ps.len() as int) =~= pv);
    out
}

pub open spec fn flag_spec(b: bool) -> Seq<char> {
    if b {
        "1"@
    } else {
        "0"@
    }
}

fn flag_text(b: bool) -> (r: String)
    ensures
        r@ == flag_spec(b),
{
    if b {
        "1".to_owned()
    } else {
        "0".to_owned()
    }
}

/// The error and drop sums of an interface fit in a `u64`.
pub open spec fn net_fits(n: NetFigures) -> bool {
    &&& n.rx_errors + n.tx_errors <= u64::MAX
    &&& n.rx_dropped + n.tx_dropped <= u64::MAX
}

/// The memory sizes in bytes fit in a `u64`.
pub open spec fn memory_fits(m: MemoryFigures) -> bool {
    &&& m.total_kb * 1024 <= u64::MAX
    &&& m.used_kb * 1024 <= u64::MAX
    &&& m.available_kb * 1024 <= u64::MAX
    &&& m.cached_kb * 1024 <= u64::MAX
    &&& m.buffers_kb * 1024 <= u64::MAX
    &&& m.dirty_kb * 1024 <= u64::MAX
    &&& m.swap_used_kb * 1024 <= u64::MAX
}

/// Every interface of `s` fits.
pub open spec fn nets_fit(s: Seq<NetFigures>) -> bool {
    forall|i: int| 0 <= i < s.len() ==> net_fits(#[trigger] s[i])
}

/// What the Prometheus export computes fits in a `u64`.
pub open spec fn export_fits(f: ExportFigures) -> bool {
    &&& match f.memory {
        Some(m) => memory_fits(m),
        None => true,
    }
    &&& nets_fit(f.networks@)
}


// ─── Prometheus ─────────────────────────────────────────────────────────────
/// The CPU families, up to the header of the per-core family.
pub open spec fn cpu_pieces_spec(c: CpuFigures) -> Seq<PieceView> {
    seq![hdr_spec("pulsar_cpu_usage_percent", "CPU global usage percentage"), line_spec("pulsar_cpu_usage_percent", Seq::empty(), c.usage@), hdr_spec("pulsar_load_avg_1m", "Load average 1 minute"), line_spec("pulsar_load_avg_1m", Seq::empty(), c.load_1@), hdr_spec("pulsar_load_avg_5m", "Load average 5 minutes"), line_spec("pulsar_load_avg_5m", Seq::empty(), c.load_5@), hdr_spec("pulsar_load_avg_15m", "Load average 15 minutes"), line_spec("pulsar_load_avg_15m", Seq::empty(), c.load_15@)] + seq![hdr_spec("pulsar_cpu_iowait_percent", "CPU iowait percentage"), line_spec("pulsar_cpu_iowait_percent", Seq::empty(), c.iowait@), hdr_spec("pulsar_cpu_steal_percent", "CPU steal percentage"), line_spec("pulsar_cpu_steal_percent", Seq::empty(), c.steal@), hdr_spec("pulsar_cpu_mode_percent", "CPU percentage by scheduler mode"), line_spec("pulsar_cpu_mode_percent", seq![("mode"@, "user"@)], c.mode_user@), line_spec("pulsar_cpu_mode_percent", seq![("mode"@, "nice"@)], c.mode_nice@), line_spec("pulsar_cpu_mode_percent", seq![("mode"@, "system"@)], c.mode_system@)] + seq![line_spec("pulsar_cpu_mode_percent", seq![("mode"@, "idle"@)], c.mode_idle@), line_spec("pulsar_cpu_mode_percent", seq![("mode"@, "iowait"@)], c.mode_iowait@), line_spec("pulsar_cpu_mode_percent", seq![("mode"@, "irq"@)], c.mode_irq@), line_spec("pulsar_cpu_mode_percent", seq![("mode"@, "softirq"@)], c.mode_softirq@), line_spec("pulsar_cpu_mode_percent", seq![("mode"@, "steal"@)], c.mode_steal@), hdr_spec("pulsar_cpu_context_switches_total", "Context switch counter snapshot"), line_spec("pulsar_cpu_context_switches_total", Seq::empty(), decimal(c.context_switches as nat)), hdr_spec("pulsar_cpu_interrupts_total", "Interrupt counter snapshot")] + seq![line_spec("pulsar_cpu_interrupts_total", Seq::empty(), decimal(c.interrupts as nat)), hdr_spec("pulsar_cpu_core_usage_percent", "Per-core CPU usage percentage")]
}

fn cpu_pieces(c: &CpuFigures) -> (r: Vec<Piece>)
    ensures
        piece_views(r@) == cpu_pieces_spec(*c),
{
    let mut v: Vec<Piece> = Vec::new();
    v.push(header("pulsar_cpu_usage_percent", "CPU global usage percentage"));
    let lv: Vec<(&'static str, String)> = Vec::new();
    assert(label_views(lv@) =~= Seq::<(Seq<char>, Seq<char>)>::empty());
    v.push(line("pulsar_cpu_usage_percent", lv, c.usage.clone()));
    v.push(header("pulsar_load_avg_1m", "Load average 1 minute"));
    let lv: Vec<(&'static str, String)> = Vec::new();
    assert(label_views(lv@) =~= Seq::<(Seq<char>, Seq<char>)>::empty());
    v.push(line("pulsar_load_avg_1m", lv, c.load_1.clone()));
    v.push(header("pulsar_load_avg_5m", "Load average 5 minutes"));
    let lv: Vec<(&'static str, String)> = Vec::new();
    assert(label_views(lv@) =~= Seq::<(Seq<char>, Seq<char>)>::empty());
    v.push(line("pulsar_load_avg_5m", lv, c.load_5.clone()));
    v.push(header("pulsar_load_avg_15m", "Load average 15 minutes"));
    let lv: Vec<(&'static str, String)> = Vec::new();
    assert(label_views(lv@) =~= Seq::<(Seq<char>, Seq<char>)>::empty());
    v.push(line("pulsar_load_avg_15m", lv, c.load_15.clone()));
    v.push(header("pulsar_cpu_iowait_percent", "CPU iowait percentage"));
    let lv: Vec<(&'static str, String)> = Vec::new();
    assert(label_views(lv@) =~= Seq::<(Seq<char>, Seq<char>)>::empty());
    v.push(line("pulsar_cpu_iowait_percent", lv, c.iowait.clone()));
    v.push(header("pulsar_cpu_steal_percent", "CPU steal percentage"));
    let lv: Vec<(&'static str, String)> = Vec::new();
    assert(label_views(lv@) =~= Seq::<(Seq<char>, Seq<char>)>::empty());
    v.push(line("pulsar_cpu_steal_percent", lv, c.steal.clone()));
    v.push(header("pulsar_cpu_mode_percent", "CPU percentage by scheduler mode"));
    let lv: Vec<(&'static str, String)> = vec![("mode", "user".to_owned())];
    assert(label_views(lv@) =~= seq![("mode"@, "user"@)]);
    v.push(line("pulsar_cpu_mode_percent", lv, c.mode_user.clone()));
    let lv: Vec<(&'static str, String)> = vec![("mode", "nice".to_owned())];
    assert(label_views(lv@) =~= seq![("mode"@, "nice"@)]);
    v.push(line("pulsar_cpu_mode_percent", lv, c.mode_nice.clone()));
    let lv: Vec<(&'static str, String)> = vec![("mode", "system".to_owned())];
    assert(label_views(lv@) =~= seq![("mode"@, "system"@)]);
    v.push(line("pulsar_cpu_mode_percent", lv, c.mode_system.clone()));
    let lv: Vec<(&'static str, String)> = vec![("mode", "idle".to_owned())];
    assert(label_views(lv@) =~= seq![("mode"@, "idle"@)]);
    v.push(line("pulsar_cpu_mode_percent", lv, c.mode_idle.clone()));
    let lv: Vec<(&'static str, String)> = vec![("mode", "iowait".to_owned())];
    assert(label_views(lv@) =~= seq![("mode"@, "iowait"@)]);
    v.push(line("pulsar_cpu_mode_percent", lv, c.mode_iowait.clone()));
    let lv: Vec<(&'static str, String)> = vec![("mode", "irq".to_owned())];
    assert(label_views(lv@) =~= seq![("mode"@, "irq"@)]);
    v.push(line("pulsar_cpu_mode_percent", lv, c.mode_irq.clone()));
    let lv: Vec<(&'static str, String)> = vec![("mode", "softirq".to_owned())];
    assert(label_views(lv@) =~= seq![("mode"@, "softirq"@)]);
    v.push(line("pulsar_cpu_mode_percent", lv, c.mode_softirq.clone()));
    let lv: Vec<(&'static str, String)> = vec![("mode", "steal".to_owned())];
    assert(label_views(lv@) =~= seq![("mode"@, "steal"@)]);
    v.push(line("pulsar_cpu_mode_percent", lv, c.mode_steal.clone()));
    v.push(header("pulsar_cpu_context_switches_total", "Context switch counter snapshot"));
    let lv: Vec<(&'static str, String)> = Vec::new();
    assert(label_views(lv@) =~= Seq::<(Seq<char>, Seq<char>)>::empty());
    v.push(line("pulsar_cpu_context_switches_total", lv, u64_text(c.context_switches as u64)));
    v.push(header("pulsar_cpu_interrupts_total", "Interrupt counter snapshot"));
    let lv: Vec<(&'static str, String)> = Vec::new();
    assert(label_views(lv@) =~= Seq::<(Seq<char>, Seq<char>)>::empty());
    v.push(line("pulsar_cpu_interrupts_total", lv, u64_text(c.interrupts as u64)));
    v.push(header("pulsar_cpu_core_usage_percent", "Per-core CPU usage percentage"));
    assert(piece_views(v@) =~= cpu_pieces_spec(*c));
    v
}

/// The line of one core.
pub open spec fn core_pieces_spec(c: CoreFigure) -> Seq<PieceView> {
    seq![line_spec("pulsar_cpu_core_usage_percent", seq![("core"@, decimal(c.id as nat))], c.usage@)]
}

fn core_pieces(c: &CoreFigure) -> (r: Vec<Piece>)
    ensures
        piece_views(r@) == core_pieces_spec(*c),
{
    let mut v: Vec<Piece> = Vec::new();
    let lv: Vec<(&'static str, String)> = vec![("core", u64_text(c.id as u64))];
    assert(label_views(lv@) =~= seq![("core"@, decimal(c.id as nat))]);
    v.push(line("pulsar_cpu_core_usage_percent", lv, c.usage.clone()));
    assert(piece_views(v@) =~= core_pieces_spec(*c));
    v
}

/// The lines of the cores, in order.
pub open spec fn cores_pieces_spec(s: Seq<CoreFigure>) -> Seq<PieceView>
    decreases s.len(),
{
    if s.len() == 0 {
        Seq::empty()
    } else {
        cores_pieces_spec(s.drop_last()) + core_pieces_spec(s.last())
    }
}

fn cores_pieces(s: &Vec<CoreFigure>) -> (r: Vec<Piece>)
    ensures
        piece_views(r@) == cores_pieces_spec(s@),
{
    let mut out: Vec<Piece> = Vec::new();
    let mut i: usize = 0;
    while i < s.len()
        invariant
            i <= s.len(),
            piece_views(out@) == cores_pieces_spec(s@.take(i as int)),
        decreases s.len() - i,
    {
        assert(s@.take(i + 1).drop_last() =~= s@.take(i as int));
        assert(s@.take(i + 1).last() == s@[i as int]);
        let mut more = core_pieces(&s[i]);
        let ghost before = out@;
        let ghost added = more@;
        out.append(&mut more);
        assert(piece_views(out@) =~= piece_views(before) + piece_views(added));
        i += 1;
    }
    assert(s@.take(s.len() as int) =~= s@);
    out
}

/// The memory families; sizes in bytes.
pub open spec fn memory_pieces_spec(m: MemoryFigures) -> Seq<PieceView> {
    seq![hdr_spec("pulsar_memory_total_bytes", "Total memory in bytes"), line_spec("pulsar_memory_total_bytes", Seq::empty(), decimal((m.total_kb * 1024) as nat)), hdr_spec("pulsar_memory_used_bytes", "Used memory in bytes"), line_spec("pulsar_memory_used_bytes", Seq::empty(), decimal((m.used_kb * 1024) as nat)), hdr_spec("pulsar_memory_usage_percent", "Memory usage percentage"), line_spec("pulsar_memory_usage_percent", Seq::empty(), m.usage@), hdr_spec("pulsar_memory_available_bytes", "Available memory in bytes"), line_spec("pulsar_memory_available_bytes", Seq::empty(), decimal((m.available_kb * 1024) as nat))] + seq![hdr_spec("pulsar_memory_cached_bytes", "Cached memory in bytes"), line_spec("pulsar_memory_cached_bytes", Seq::empty(), decimal((m.cached_kb * 1024) as nat)), hdr_spec("pulsar_memory_buffers_bytes", "Buffer memory in bytes"), line_spec("pulsar_memory_buffers_bytes", Seq::empty(), decimal((m.buffers_kb * 1024) as nat)), hdr_spec("pulsar_memory_dirty_bytes", "Dirty memory in bytes"), line_spec("pulsar_memory_dirty_bytes", Seq::empty(), decimal((m.dirty_kb * 1024) as nat)), hdr_spec("pulsar_swap_used_bytes", "Swap used in bytes"), line_spec("pulsar_swap_used_bytes", Seq::empty(), decimal((m.swap_used_kb * 1024) as nat))] + seq![hdr_spec("pulsar_memory_vm_counters", "Linux VM paging counter snapshots"), line_spec("pulsar_memory_vm_counters", seq![("counter"@, "pgfault"@)], decimal(m.vm_pgfault as nat)), line_spec("pulsar_memory_vm_counters", seq![("counter"@, "pgmajfault"@)], decimal(m.vm_pgmajfault as nat)), line_spec("pulsar_memory_vm_counters", seq![("counter"@, "pgpgin"@)], decimal(m.vm_pgpgin as nat)), line_spec("pulsar_memory_vm_counters", seq![("counter"@, "pgpgout"@)], decimal(m.vm_pgpgout as nat)), line_spec("pulsar_memory_vm_counters", seq![("counter"@, "pswpin"@)], decimal(m.vm_pswpin as nat)), line_spec("pulsar_memory_vm_counters", seq![("counter"@, "pswpout"@)], decimal(m.vm_pswpout as nat)), line_spec("pulsar_memory_vm_counters", seq![("counter"@, "pgscan"@)], decimal(m.vm_pgscan as nat))] + seq![line_spec("pulsar_memory_vm_counters", seq![("counter"@, "pgsteal"@)], decimal(m.vm_pgsteal as nat))]
}

fn memory_pieces(m: &MemoryFigures) -> (r: Vec<Piece>)
    requires
        memory_fits(*m),
    ensures
        piece_views(r@) == memory_pieces_spec(*m),
{
    let mut v: Vec<Piece> = Vec::new();
    v.push(header("pulsar_memory_total_bytes", "Total memory in bytes"));
    let lv: Vec<(&'static str, String)> = Vec::new();
    assert(label_views(lv@) =~= Seq::<(Seq<char>, Seq<char>)>::empty());
    v.push(line("pulsar_memory_total_bytes", lv, u64_text(m.total_kb * 1024)));
    v.push(header("pulsar_memory_used_bytes", "Used memory in bytes"));
    let lv: Vec<(&'static str, String)> = Vec::new();
    assert(label_views(lv@) =~= Seq::<(Seq<char>, Seq<char>)>::empty());
    v.push(line("pulsar_memory_used_bytes", lv, u64_text(m.used_kb * 1024)));
    v.push(header("pulsar_memory_usage_percent", "Memory usage percentage"));
    let lv: Vec<(&'static str, String)> = Vec::new();
    assert(label_views(lv@) =~= Seq::<(Seq<char>, Seq<char>)>::empty());
    v.push(line("pulsar_memory_usage_percent", lv, m.usage.clone()));
    v.push(header("pulsar_memory_available_bytes", "Available memory in bytes"));
    let lv: Vec<(&'static str, String)> = Vec::new();
    assert(label_views(lv@) =~= Seq::<(Seq<char>, Seq<char>)>::empty());
    v.push(line("pulsar_memory_available_bytes", lv, u64_text(m.available_kb * 1024)));
    v.push(header("pulsar_memory_cached_bytes", "Cached memory in bytes"));
    let lv: Vec<(&'static str, String)> = Vec::new();
    assert(label_views(lv@) =~= Seq::<(Seq<char>, Seq<char>)>::empty());
    v.push(line("pulsar_memory_cached_bytes", lv, u64_text(m.cached_kb * 1024)));
    v.push(header("pulsar_memory_buffers_bytes", "Buffer memory in bytes"));
    let lv: Vec<(&'static str, String)> = Vec::new();
    assert(label_views(lv@) =~= Seq::<(Seq<char>, Seq<char>)>::empty());
    v.push(line("pulsar_memory_buffers_bytes", lv, u64_text(m.buffers_kb * 1024)));
    v.push(header("pulsar_memory_dirty_bytes", "Dirty memory in bytes"));
    let lv: Vec<(&'static str, String)> = Vec::new();
    assert(label_views(lv@) =~= Seq::<(Seq<char>, Seq<char>)>::empty());
    v.push(line("pulsar_memory_dirty_bytes", lv, u64_text(m.dirty_kb * 1024)));
    v.push(header("pulsar_swap_used_bytes", "Swap used in bytes"));
    let lv: Vec<(&'static str, String)> = Vec::new();
    assert(label_views(lv@) =~= Seq::<(Seq<char>, Seq<char>)>::empty());
    v.push(line("pulsar_swap_used_bytes", lv, u64_text(m.swap_used_kb * 1024)));
    v.push(header("pulsar_memory_vm_counters", "Linux VM paging counter snapshots"));
    let lv: Vec<(&'static str, String)> = vec![("counter", "pgfault".to_owned())];
    assert(label_views(lv@) =~= seq![("counter"@, "pgfault"@)]);
    v.push(line("pulsar_memory_vm_counters", lv, u64_text(m.vm_pgfault as u64)));
    let lv: Vec<(&'static str, String)> = vec![("counter", "pgmajfault".to_owned())];
    assert(label_views(lv@) =~= seq![("counter"@, "pgmajfault"@)]);
    v.push(line("pulsar_memory_vm_counters", lv, u64_text(m.vm_pgmajfault as u64)));
    let lv: Vec<(&'static str, String)> = vec![("counter", "pgpgin".to_owned())];
    assert(label_views(lv@) =~= seq![("counter"@, "pgpgin"@)]);
    v.push(line("pulsar_memory_vm_counters", lv, u64_text(m.vm_pgpgin as u64)));
    let lv: Vec<(&'static str, String)> = vec![("counter", "pgpgout".to_owned())];
    assert(label_views(lv@) =~= seq![("counter"@, "pgpgout"@)]);
    v.push(line("pulsar_memory_vm_counters", lv, u64_text(m.vm_pgpgout as u64)));
    let lv: Vec<(&'static str, String)> = vec![("counter", "pswpin".to_owned())];
    assert(label_views(lv@) =~= seq![("counter"@, "pswpin"@)]);
    v.push(line("pulsar_memory_vm_counters", lv, u64_text(m.vm_pswpin as u64)));
    let lv: Vec<(&'static str, String)> = vec![("counter", "pswpout".to_owned())];
    assert(label_views(lv@) =~= seq![("counter"@, "pswpout"@)]);
    v.push(line("pulsar_memory_vm_counters", lv, u64_text(m.vm_pswpout as u64)));
    let lv: Vec<(&'static str, String)> = vec![("counter", "pgscan".to_owned())];
    assert(label_views(lv@) =~= seq![("counter"@, "pgscan"@)]);
    v.push(line("pulsar_memory_vm_counters", lv, u64_text(m.vm_pgscan as u64)));
    let lv: Vec<(&'static str, String)> = vec![("counter", "pgsteal".to_owned())];
    assert(label_views(lv@) =~= seq![("counter"@, "pgsteal"@)]);
    v.push(line("pulsar_memory_vm_counters", lv, u64_text(m.vm_pgsteal as u64)));
    assert(piece_views(v@) =~= memory_pieces_spec(*m));
    v
}

/// The headers of the disk families, written once before the disks.
pub open spec fn disk_headers_spec(f: ExportFigures) -> Seq<PieceView> {
    seq![hdr_spec("pulsar_disk_used_bytes", "Used disk space in bytes"), hdr_spec("pulsar_disk_free_bytes", "Free disk space in bytes"), hdr_spec("pulsar_disk_usage_percent", "Disk usage percentage"), hdr_spec("pulsar_disk_read_iops", "Read IOPS"), hdr_spec("pulsar_disk_write_iops", "Write IOPS"), hdr_spec("pulsar_disk_read_throughput_kb", "Read throughput in KB/s"), hdr_spec("pulsar_disk_write_throughput_kb", "Write throughput in KB/s"), hdr_spec("pulsar_disk_await_milliseconds", "Average disk await in milliseconds")] + seq![hdr_spec("pulsar_disk_service_time_milliseconds", "Average disk service time in milliseconds"), hdr_spec("pulsar_disk_queue_depth", "Average disk queue depth"), hdr_spec("pulsar_disk_util_percent", "Disk utilization percentage"), hdr_spec("pulsar_disk_merged_ops_per_sec", "Merged disk operations per second"), hdr_spec("pulsar_disk_info", "Portable disk classification hints")]
}

fn disk_headers(f: &ExportFigures) -> (r: Vec<Piece>)
    ensures
        piece_views(r@) == disk_headers_spec(*f),
{
    let mut v: Vec<Piece> = Vec::new();
    v.push(header("pulsar_disk_used_bytes", "Used disk space in bytes"));
    v.push(header("pulsar_disk_free_bytes", "Free disk space in bytes"));
    v.push(header("pulsar_disk_usage_percent", "Disk usage percentage"));
    v.push(header("pulsar_disk_read_iops", "Read IOPS"));
    v.push(header("pulsar_disk_write_iops", "Write IOPS"));
    v.push(header("pulsar_disk_read_throughput_kb", "Read throughput in KB/s"));
    v.push(header("pulsar_disk_write_throughput_kb", "Write throughput in KB/s"));
    v.push(header("pulsar_disk_await_milliseconds", "Average disk await in milliseconds"));
    v.push(header("pulsar_disk_service_time_milliseconds", "Average disk service time in milliseconds"));
    v.push(header("pulsar_disk_queue_depth", "Average disk queue depth"));
    v.push(header("pulsar_disk_util_percent", "Disk utilization percentage"));
    v.push(header("pulsar_disk_merged_ops_per_sec", "Merged disk operations per second"));
    v.push(header("pulsar_disk_info", "Portable disk classification hints"));
    assert(piece_views(v@) =~= disk_headers_spec(*f));
    v
}

/// The lines of one disk.
pub open spec fn disk_pieces_spec(d: DiskFigures) -> Seq<PieceView> {
    seq![line_spec("pulsar_disk_info", seq![("device"@, escape_spec(d.device@)), ("mount"@, escape_spec(d.mount_point@)), ("structure"@, escape_spec(d.structure@)), ("protocol"@, escape_spec(d.protocol@)), ("media"@, escape_spec(d.media@))], "1"@), line_spec("pulsar_disk_used_bytes", seq![("device"@, escape_spec(d.device@)), ("mount"@, escape_spec(d.mount_point@)), ("structure"@, escape_spec(d.structure@)), ("protocol"@, escape_spec(d.protocol@)), ("media"@, escape_spec(d.media@))], d.used_bytes@), line_spec("pulsar_disk_free_bytes", seq![("device"@, escape_spec(d.device@)), ("mount"@, escape_spec(d.mount_point@)), ("structure"@, escape_spec(d.structure@)), ("protocol"@, escape_spec(d.protocol@)), ("media"@, escape_spec(d.media@))], d.free_bytes@), line_spec("pulsar_disk_usage_percent", seq![("device"@, escape_spec(d.device@)), ("mount"@, escape_spec(d.mount_point@)), ("structure"@, escape_spec(d.structure@)), ("protocol"@, escape_spec(d.protocol@)), ("media"@, escape_spec(d.media@))], d.usage@), line_spec("pulsar_disk_read_iops", seq![("device"@, escape_spec(d.device@)), ("mount"@, escape_spec(d.mount_point@)), ("structure"@, escape_spec(d.structure@)), ("protocol"@, escape_spec(d.protocol@)), ("media"@, escape_spec(d.media@))], decimal(d.read_iops as nat)), line_spec("pulsar_disk_write_iops", seq![("device"@, escape_spec(d.device@)), ("mount"@, escape_spec(d.mount_point@)), ("structure"@, escape_spec(d.structure@)), ("protocol"@, escape_spec(d.protocol@)), ("media"@, escape_spec(d.media@))], decimal(d.write_iops as nat)), line_spec("pulsar_disk_read_throughput_kb", seq![("device"@, escape_spec(d.device@)), ("mount"@, escape_spec(d.mount_point@)), ("structure"@, escape_spec(d.structure@)), ("protocol"@, escape_spec(d.protocol@)), ("media"@, escape_spec(d.media@))], decimal(d.read_kb_sec as nat)), line_spec("pulsar_disk_write_throughput_kb", seq![("device"@, escape_spec(d.device@)), ("mount"@, escape_spec(d.mount_point@)), ("structure"@, escape_spec(d.structure@)), ("protocol"@, escape_spec(d.protocol@)), ("media"@, escape_spec(d.media@))], decimal(d.write_kb_sec as nat))] + seq![line_spec("pulsar_disk_await_milliseconds", seq![("device"@, escape_spec(d.device@)), ("mount"@, escape_spec(d.mount_point@)), ("structure"@, escape_spec(d.structure@)), ("protocol"@, escape_spec(d.protocol@)), ("media"@, escape_spec(d.media@))], d.await_ms@), line_spec("pulsar_disk_service_time_milliseconds", seq![("device"@, escape_spec(d.device@)), ("mount"@, escape_spec(d.mount_point@)), ("structure"@, escape_spec(d.structure@)), ("protocol"@, escape_spec(d.protocol@)), ("media"@, escape_spec(d.media@))], d.service_time_ms@), line_spec("pulsar_disk_queue_depth", seq![("device"@, escape_spec(d.device@)), ("mount"@, escape_spec(d.mount_point@)), ("structure"@, escape_spec(d.structure@)), ("protocol"@, escape_spec(d.protocol@)), ("media"@, escape_spec(d.media@))], d.queue_depth@), line_spec("pulsar_disk_util_percent", seq![("device"@, escape_spec(d.device@)), ("mount"@, escape_spec(d.mount_point@)), ("structure"@, escape_spec(d.structure@)), ("protocol"@, escape_spec(d.protocol@)), ("media"@, escape_spec(d.media@))], d.util@), line_spec("pulsar_disk_merged_ops_per_sec", seq![("device"@, escape_spec(d.device@)), ("mount"@, escape_spec(d.mount_point@)), ("structure"@, escape_spec(d.structure@)), ("protocol"@, escape_spec(d.protocol@)), ("media"@, escape_spec(d.media@)), ("direction"@, "read"@)], decimal(d.read_merged_ops_sec as nat)), line_spec("pulsar_disk_merged_ops_per_sec", seq![("device"@, escape_spec(d.device@)), ("mount"@, escape_spec(d.mount_point@)), ("structure"@, escape_spec(d.structure@)), ("protocol"@, escape_spec(d.protocol@)), ("media"@, escape_spec(d.media@)), ("direction"@, "write"@)], decimal(d.write_merged_ops_sec as nat))]
}

fn disk_pieces(d: &DiskFigures) -> (r: Vec<Piece>)
    ensures
        piece_views(r@) == disk_pieces_spec(*d),
{
    let mut v: Vec<Piece> = Vec::new();
    let lv: Vec<(&'static str, String)> = vec![("device", escape_label(d.device.as_str())), ("mount", escape_label(d.mount_point.as_str())), ("structure", escape_label(d.structure.as_str())), ("protocol", escape_label(d.protocol.as_str())), ("media", escape_label(d.media.as_str()))];
    assert(label_views(lv@) =~= seq![("device"@, escape_spec(d.device@)), ("mount"@, escape_spec(d.mount_point@)), ("structure"@, escape_spec(d.structure@)), ("protocol"@, escape_spec(d.protocol@)), ("media"@, escape_spec(d.media@))]);
    v.push(line("pulsar_disk_info", lv, "1".to_owned()));
    let lv: Vec<(&'static str, String)> = vec![("device", escape_label(d.device.as_str())), ("mount", escape_label(d.mount_point.as_str())), ("structure", escape_label(d.structure.as_str())), ("protocol", escape_label(d.protocol.as_str())), ("media", escape_label(d.media.as_str()))];
    assert(label_views(lv@) =~= seq![("device"@, escape_spec(d.device@)), ("mount"@, escape_spec(d.mount_point@)), ("structure"@, escape_spec(d.structure@)), ("protocol"@, escape_spec(d.protocol@)), ("media"@, escape_spec(d.media@))]);
    v.push(line("pulsar_disk_used_bytes", lv, d.used_bytes.clone()));
    let lv: Vec<(&'static str, String)> = vec![("device", escape_label(d.device.as_str())), ("mount", escape_label(d.mount_point.as_str())), ("structure", escape_label(d.structure.as_str())), ("protocol", escape_label(d.protocol.as_str())), ("media", escape_label(d.media.as_str()))];
    assert(label_views(lv@) =~= seq![("device"@, escape_spec(d.device@)), ("mount"@, escape_spec(d.mount_point@)), ("structure"@, escape_spec(d.structure@)), ("protocol"@, escape_spec(d.protocol@)), ("media"@, escape_spec(d.media@))]);
    v.push(line("pulsar_disk_free_bytes", lv, d.free_bytes.clone()));
    let lv: Vec<(&'static str, String)> = vec![("device", escape_label(d.device.as_str())), ("mount", escape_label(d.mount_point.as_str())), ("structure", escape_label(d.structure.as_str())), ("protocol", escape_label(d.protocol.as_str())), ("media", escape_label(d.media.as_str()))];
    assert(label_views(lv@) =~= seq![("device"@, escape_spec(d.device@)), ("mount"@, escape_spec(d.mount_point@)), ("structure"@, escape_spec(d.structure@)), ("protocol"@, escape_spec(d.protocol@)), ("media"@, escape_spec(d.media@))]);
    v.push(line("pulsar_disk_usage_percent", lv, d.usage.clone()));
    let lv: Vec<(&'static str, String)> = vec![("device", escape_label(d.device.as_str())), ("mount", escape_label(d.mount_point.as_str())), ("structure", escape_label(d.structure.as_str())), ("protocol", escape_label(d.protocol.as_str())), ("media", escape_label(d.media.as_str()))];
    assert(label_views(lv@) =~= seq![("device"@, escape_spec(d.device@)), ("mount"@, escape_spec(d.mount_point@)), ("structure"@, escape_spec(d.structure@)), ("protocol"@, escape_spec(d.protocol@)), ("media"@, escape_spec(d.media@))]);
    v.push(line("pulsar_disk_read_iops", lv, u64_text(d.read_iops as u64)));
    let lv: Vec<(&'static str, String)> = vec![("device", escape_label(d.device.as_str())), ("mount", escape_label(d.mount_point.as_str())), ("structure", escape_label(d.structure.as_str())), ("protocol", escape_label(d.protocol.as_str())), ("media", escape_label(d.media.as_str()))];
    assert(label_views(lv@) =~= seq![("device"@, escape_spec(d.device@)), ("mount"@, escape_spec(d.mount_point@)), ("structure"@, escape_spec(d.structure@)), ("protocol"@, escape_spec(d.protocol@)), ("media"@, escape_spec(d.media@))]);
    v.push(line("pulsar_disk_write_iops", lv, u64_text(d.write_iops as u64)));
    let lv: Vec<(&'static str, String)> = vec![("device", escape_label(d.device.as_str())), ("mount", escape_label(d.mount_point.as_str())), ("structure", escape_label(d.structure.as_str())), ("protocol", escape_label(d.protocol.as_str())), ("media", escape_label(d.media.as_str()))];
    assert(label_views(lv@) =~= seq![("device"@, escape_spec(d.device@)), ("mount"@, escape_spec(d.mount_point@)), ("structure"@, escape_spec(d.structure@)), ("protocol"@, escape_spec(d.protocol@)), ("media"@, escape_spec(d.media@))]);
    v.push(line("pulsar_disk_read_throughput_kb", lv, u64_text(d.read_kb_sec as u64)));
    let lv: Vec<(&'static str, String)> = vec![("device", escape_label(d.device.as_str())), ("mount", escape_label(d.mount_point.as_str())), ("structure", escape_label(d.structure.as_str())), ("protocol", escape_label(d.protocol.as_str())), ("media", escape_label(d.media.as_str()))];
    assert(label_views(lv@) =~= seq![("device"@, escape_spec(d.device@)), ("mount"@, escape_spec(d.mount_point@)), ("structure"@, escape_spec(d.structure@)), ("protocol"@, escape_spec(d.protocol@)), ("media"@, escape_spec(d.media@))]);
    v.push(line("pulsar_disk_write_throughput_kb", lv, u64_text(d.write_kb_sec as u64)));
    let lv: Vec<(&'static str, String)> = vec![("device", escape_label(d.device.as_str())), ("mount", escape_label(d.mount_point.as_str())), ("structure", escape_label(d.structure.as_str())), ("protocol", escape_label(d.protocol.as_str())), ("media", escape_label(d.media.as_str()))];
    assert(label_views(lv@) =~= seq![("device"@, escape_spec(d.device@)), ("mount"@, escape_spec(d.mount_point@)), ("structure"@, escape_spec(d.structure@)), ("protocol"@, escape_spec(d.protocol@)), ("media"@, escape_spec(d.media@))]);
    v.push(line("pulsar_disk_await_milliseconds", lv, d.await_ms.clone()));
    let lv: Vec<(&'static str, String)> = vec![("device", escape_label(d.device.as_str())), ("mount", escape_label(d.mount_point.as_str())), ("structure", escape_label(d.structure.as_str())), ("protocol", escape_label(d.protocol.as_str())), ("media", escape_label(d.media.as_str()))];
    assert(label_views(lv@) =~= seq![("device"@, escape_spec(d.device@)), ("mount"@, escape_spec(d.mount_point@)), ("structure"@, escape_spec(d.structure@)), ("protocol"@, escape_spec(d.protocol@)), ("media"@, escape_spec(d.media@))]);
    v.push(line("pulsar_disk_service_time_milliseconds", lv, d.service_time_ms.clone()));
    let lv: Vec<(&'static str, String)> = vec![("device", escape_label(d.device.as_str())), ("mount", escape_label(d.mount_point.as_str())), ("structure", escape_label(d.structure.as_str())), ("protocol", escape_label(d.protocol.as_str())), ("media", escape_label(d.media.as_str()))];
    assert(label_views(lv@) =~= seq![("device"@, escape_spec(d.device@)), ("mount"@, escape_spec(d.mount_point@)), ("structure"@, escape_spec(d.structure@)), ("protocol"@, escape_spec(d.protocol@)), ("media"@, escape_spec(d.media@))]);
    v.push(line("pulsar_disk_queue_depth", lv, d.queue_depth.clone()));
    let lv: Vec<(&'static str, String)> = vec![("device", escape_label(d.device.as_str())), ("mount", escape_label(d.mount_point.as_str())), ("structure", escape_label(d.structure.as_str())), ("protocol", escape_label(d.protocol.as_str())), ("media", escape_label(d.media.as_str()))];
    assert(label_views(lv@) =~= seq![("device"@, escape_spec(d.device@)), ("mount"@, escape_spec(d.mount_point@)), ("structure"@, escape_spec(d.structure@)), ("protocol"@, escape_spec(d.protocol@)), ("media"@, escape_spec(d.media@))]);
    v.push(line("pulsar_disk_util_percent", lv, d.util.clone()));
    let lv: Vec<(&'static str, String)> = vec![("device", escape_label(d.device.as_str())), ("mount", escape_label(d.mount_point.as_str())), ("structure", escape_label(d.structure.as_str())), ("protocol", escape_label(d.protocol.as_str())), ("media", escape_label(d.media.as_str())), ("direction", "read".to_owned())];
    assert(label_views(lv@) =~= seq![("device"@, escape_spec(d.device@)), ("mount"@, escape_spec(d.mount_point@)), ("structure"@, escape_spec(d.structure@)), ("protocol"@, escape_spec(d.protocol@)), ("media"@, escape_spec(d.media@)), ("direction"@, "read"@)]);
    v.push(line("pulsar_disk_merged_ops_per_sec", lv, u64_text(d.read_merged_ops_sec as u64)));
    let lv: Vec<(&'static str, String)> = vec![("device", escape_label(d.device.as_str())), ("mount", escape_label(d.mount_point.as_str())), ("structure", escape_label(d.structure.as_str())), ("protocol", escape_label(d.protocol.as_str())), ("media", escape_label(d.media.as_str())), ("direction", "write".to_owned())];
    assert(label_views(lv@) =~= seq![("device"@, escape_spec(d.device@)), ("mount"@, escape_spec(d.mount_point@)), ("structure"@, escape_spec(d.structure@)), ("protocol"@, escape_spec(d.protocol@)), ("media"@, escape_spec(d.media@)), ("direction"@, "write"@)]);
    v.push(line("pulsar_disk_merged_ops_per_sec", lv, u64_text(d.write_merged_ops_sec as u64)));
    assert(piece_views(v@) =~= disk_pieces_spec(*d));
    v
}

/// The lines of the disks, disk after disk.
pub open spec fn disks_pieces_spec(s: Seq<DiskFigures>) -> Seq<PieceView>
    decreases s.len(),
{
    if s.len() == 0 {
        Seq::empty()
    } else {
        disks_pieces_spec(s.drop_last()) + disk_pieces_spec(s.last())
    }
}

fn disks_pieces(s: &Vec<DiskFigures>) -> (r: Vec<Piece>)
    ensures
        piece_views(r@) == disks_pieces_spec(s@),
{
    let mut out: Vec<Piece> = Vec::new();
    let mut i: usize = 0;
    while i < s.len()
        invariant
            i <= s.len(),
            piece_views(out@) == disks_pieces_spec(s@.take(i as int)),
        decreases s.len() - i,
    {
        assert(s@.take(i + 1).drop_last() =~= s@.take(i as int));
        assert(s@.take(i + 1).last() == s@[i as int]);
        let mut more = disk_pieces(&s[i]);
        let ghost before = out@;
        let ghost added = more@;
        out.append(&mut more);
        assert(piece_views(out@) =~= piece_views(before) + piece_views(added));
        i += 1;
    }
    assert(s@.take(s.len() as int) =~= s@);
    out
}

/// The headers of the interface families, written once before the interfaces.
pub open spec fn net_headers_spec(f: ExportFigures) -> Seq<PieceView> {
    seq![hdr_spec("pulsar_network_rx_bytes_sec", "Network receive throughput in bytes/s"), hdr_spec("pulsar_network_tx_bytes_sec", "Network transmit throughput in bytes/s"), hdr_spec("pulsar_network_rx_packets_sec", "Network receive packets per second"), hdr_spec("pulsar_network_tx_packets_sec", "Network transmit packets per second"), hdr_spec("pulsar_network_errors_total", "Network interface errors"), hdr_spec("pulsar_network_drops_total", "Network interface drops"), hdr_spec("pulsar_network_connections_total", "TCP connection count"), hdr_spec("pulsar_network_connections_established", "TCP established connection count")] + seq![hdr_spec("pulsar_network_tcp_state_count", "TCP socket states"), hdr_spec("pulsar_network_udp_state_count", "UDP socket states"), hdr_spec("pulsar_network_tcp_retrans_segments", "TCP retransmitted segments"), hdr_spec("pulsar_network_interface_info", "Portable interface classification hints")]
}

fn net_headers(f: &ExportFigures) -> (r: Vec<Piece>)
    ensures
        piece_views(r@) == net_headers_spec(*f),
{
    let mut v: Vec<Piece> = Vec::new();
    v.push(header("pulsar_network_rx_bytes_sec", "Network receive throughput in bytes/s"));
    v.push(header("pulsar_network_tx_bytes_sec", "Network transmit throughput in bytes/s"));
    v.push(header("pulsar_network_rx_packets_sec", "Network receive packets per second"));
    v.push(header("pulsar_network_tx_packets_sec", "Network transmit packets per second"));
    v.push(header("pulsar_network_errors_total", "Network interface errors"));
    v.push(header("pulsar_network_drops_total", "Network interface drops"));
    v.push(header("pulsar_network_connections_total", "TCP connection count"));
    v.push(header("pulsar_network_connections_established", "TCP established connection count"));
    v.push(header("pulsar_network_tcp_state_count", "TCP socket states"));
    v.push(header("pulsar_network_udp_state_count", "UDP socket states"));
    v.push(header("pulsar_network_tcp_retrans_segments", "TCP retransmitted segments"));
    v.push(header("pulsar_network_interface_info", "Portable interface classification hints"));
    assert(piece_views(v@) =~= net_headers_spec(*f));
    v
}

/// The lines of one interface.
pub open spec fn net_pieces_spec(n: NetFigures) -> Seq<PieceView> {
    seq![line_spec("pulsar_network_interface_info", seq![("interface"@, escape_spec(n.interface@)), ("topology"@, escape_spec(n.topology@)), ("family"@, escape_spec(n.family@)), ("medium"@, escape_spec(n.medium@))], "1"@), line_spec("pulsar_network_rx_bytes_sec", seq![("interface"@, escape_spec(n.interface@)), ("topology"@, escape_spec(n.topology@)), ("family"@, escape_spec(n.family@)), ("medium"@, escape_spec(n.medium@))], decimal(n.rx_bytes_sec as nat)), line_spec("pulsar_network_tx_bytes_sec", seq![("interface"@, escape_spec(n.interface@)), ("topology"@, escape_spec(n.topology@)), ("family"@, escape_spec(n.family@)), ("medium"@, escape_spec(n.medium@))], decimal(n.tx_bytes_sec as nat)), line_spec("pulsar_network_rx_packets_sec", seq![("interface"@, escape_spec(n.interface@)), ("topology"@, escape_spec(n.topology@)), ("family"@, escape_spec(n.family@)), ("medium"@, escape_spec(n.medium@))], decimal(n.rx_packets_sec as nat)), line_spec("pulsar_network_tx_packets_sec", seq![("interface"@, escape_spec(n.interface@)), ("topology"@, escape_spec(n.topology@)), ("family"@, escape_spec(n.family@)), ("medium"@, escape_spec(n.medium@))], decimal(n.tx_packets_sec as nat)), line_spec("pulsar_network_errors_total", seq![("interface"@, escape_spec(n.interface@)), ("topology"@, escape_spec(n.topology@)), ("family"@, escape_spec(n.family@)), ("medium"@, escape_spec(n.medium@))], decimal((n.rx_errors + n.tx_errors) as nat)), line_spec("pulsar_network_drops_total", seq![("interface"@, escape_spec(n.interface@)), ("topology"@, escape_spec(n.topology@)), ("family"@, escape_spec(n.family@)), ("medium"@, escape_spec(n.medium@))], decimal((n.rx_dropped + n.tx_dropped) as nat)), line_spec("pulsar_network_connections_total", seq![("interface"@, escape_spec(n.interface@)), ("topology"@, escape_spec(n.topology@)), ("family"@, escape_spec(n.family@)), ("medium"@, escape_spec(n.medium@))], decimal(n.connections_total as nat))] + seq![line_spec("pulsar_network_connections_established", seq![("interface"@, escape_spec(n.interface@)), ("topology"@, escape_spec(n.topology@)), ("family"@, escape_spec(n.family@)), ("medium"@, escape_spec(n.medium@))], decimal(n.connections_established as nat)), line_spec("pulsar_network_tcp_state_count", seq![("interface"@, escape_spec(n.interface@)), ("topology"@, escape_spec(n.topology@)), ("family"@, escape_spec(n.family@)), ("medium"@, escape_spec(n.medium@)), ("state"@, "established"@)], decimal(n.connections_established as nat)), line_spec("pulsar_network_tcp_state_count", seq![("interface"@, escape_spec(n.interface@)), ("topology"@, escape_spec(n.topology@)), ("family"@, escape_spec(n.family@)), ("medium"@, escape_spec(n.medium@)), ("state"@, "listen"@)], decimal(n.tcp_listen as nat)), line_spec("pulsar_network_tcp_state_count", seq![("interface"@, escape_spec(n.interface@)), ("topology"@, escape_spec(n.topology@)), ("family"@, escape_spec(n.family@)), ("medium"@, escape_spec(n.medium@)), ("state"@, "time_wait"@)], decimal(n.tcp_time_wait as nat)), line_spec("pulsar_network_tcp_state_count", seq![("interface"@, escape_spec(n.interface@)), ("topology"@, escape_spec(n.topology@)), ("family"@, escape_spec(n.family@)), ("medium"@, escape_spec(n.medium@)), ("state"@, "close_wait"@)], decimal(n.tcp_close_wait as nat)), line_spec("pulsar_network_tcp_state_count", seq![("interface"@, escape_spec(n.interface@)), ("topology"@, escape_spec(n.topology@)), ("family"@, escape_spec(n.family@)), ("medium"@, escape_spec(n.medium@)), ("state"@, "syn_sent"@)], decimal(n.tcp_syn_sent as nat)), line_spec("pulsar_network_tcp_state_count", seq![("interface"@, escape_spec(n.interface@)), ("topology"@, escape_spec(n.topology@)), ("family"@, escape_spec(n.family@)), ("medium"@, escape_spec(n.medium@)), ("state"@, "syn_recv"@)], decimal(n.tcp_syn_recv as nat)), line_spec("pulsar_network_tcp_state_count", seq![("interface"@, escape_spec(n.interface@)), ("topology"@, escape_spec(n.topology@)), ("family"@, escape_spec(n.family@)), ("medium"@, escape_spec(n.medium@)), ("state"@, "fin_wait1"@)], decimal(n.tcp_fin_wait1 as nat))] + seq![line_spec("pulsar_network_tcp_state_count", seq![("interface"@, escape_spec(n.interface@)), ("topology"@, escape_spec(n.topology@)), ("family"@, escape_spec(n.family@)), ("medium"@, escape_spec(n.medium@)), ("state"@, "fin_wait2"@)], decimal(n.tcp_fin_wait2 as nat)), line_spec("pulsar_network_tcp_state_count", seq![("interface"@, escape_spec(n.interface@)), ("topology"@, escape_spec(n.topology@)), ("family"@, escape_spec(n.family@)), ("medium"@, escape_spec(n.medium@)), ("state"@, "last_ack"@)], decimal(n.tcp_last_ack as nat)), line_spec("pulsar_network_tcp_state_count", seq![("interface"@, escape_spec(n.interface@)), ("topology"@, escape_spec(n.topology@)), ("family"@, escape_spec(n.family@)), ("medium"@, escape_spec(n.medium@)), ("state"@, "closing"@)], decimal(n.tcp_closing as nat)), line_spec("pulsar_network_tcp_state_count", seq![("interface"@, escape_spec(n.interface@)), ("topology"@, escape_spec(n.topology@)), ("family"@, escape_spec(n.family@)), ("medium"@, escape_spec(n.medium@)), ("state"@, "close"@)], decimal(n.tcp_close as nat)), line_spec("pulsar_network_tcp_state_count", seq![("interface"@, escape_spec(n.interface@)), ("topology"@, escape_spec(n.topology@)), ("family"@, escape_spec(n.family@)), ("medium"@, escape_spec(n.medium@)), ("state"@, "other"@)], decimal(n.tcp_other as nat)), line_spec("pulsar_network_udp_state_count", seq![("interface"@, escape_spec(n.interface@)), ("topology"@, escape_spec(n.topology@)), ("family"@, escape_spec(n.family@)), ("medium"@, escape_spec(n.medium@)), ("state"@, "total"@)], decimal(n.udp_total as nat)), line_spec("pulsar_network_udp_state_count", seq![("interface"@, escape_spec(n.interface@)), ("topology"@, escape_spec(n.topology@)), ("family"@, escape_spec(n.family@)), ("medium"@, escape_spec(n.medium@)), ("state"@, "established"@)], decimal(n.udp_established as nat)), line_spec("pulsar_network_udp_state_count", seq![("interface"@, escape_spec(n.interface@)), ("topology"@, escape_spec(n.topology@)), ("family"@, escape_spec(n.family@)), ("medium"@, escape_spec(n.medium@)), ("state"@, "close"@)], decimal(n.udp_close as nat))] + seq![line_spec("pulsar_network_udp_state_count", seq![("interface"@, escape_spec(n.interface@)), ("topology"@, escape_spec(n.topology@)), ("family"@, escape_spec(n.family@)), ("medium"@, escape_spec(n.medium@)), ("state"@, "other"@)], decimal(n.udp_other as nat)), line_spec("pulsar_network_tcp_retrans_segments", seq![("interface"@, escape_spec(n.interface@)), ("topology"@, escape_spec(n.topology@)), ("family"@, escape_spec(n.family@)), ("medium"@, escape_spec(n.medium@))], decimal(n.retrans_segs as nat))]
}

fn net_pieces(n: &NetFigures) -> (r: Vec<Piece>)
    requires
        net_fits(*n),
    ensures
        piece_views(r@) == net_pieces_spec(*n),
{
    let mut v: Vec<Piece> = Vec::new();
    let lv: Vec<(&'static str, String)> = vec![("interface", escape_label(n.interface.as_str())), ("topology", escape_label(n.topology.as_str())), ("family", escape_label(n.family.as_str())), ("medium", escape_label(n.medium.as_str()))];
    assert(label_views(lv@) =~= seq![("interface"@, escape_spec(n.interface@)), ("topology"@, escape_spec(n.topology@)), ("family"@, escape_spec(n.family@)), ("medium"@, escape_spec(n.medium@))]);
    v.push(line("pulsar_network_interface_info", lv, "1".to_owned()));
    let lv: Vec<(&'static str, String)> = vec![("interface", escape_label(n.interface.as_str())), ("topology", escape_label(n.topology.as_str())), ("family", escape_label(n.family.as_str())), ("medium", escape_label(n.medium.as_str()))];
    assert(label_views(lv@) =~= seq![("interface"@, escape_spec(n.interface@)), ("topology"@, escape_spec(n.topology@)), ("family"@, escape_spec(n.family@)), ("medium"@, escape_spec(n.medium@))]);
    v.push(line("pulsar_network_rx_bytes_sec", lv, u64_text(n.rx_bytes_sec as u64)));
    let lv: Vec<(&'static str, String)> = vec![("interface", escape_label(n.interface.as_str())), ("topology", escape_label(n.topology.as_str())), ("family", escape_label(n.family.as_str())), ("medium", escape_label(n.medium.as_str()))];
    assert(label_views(lv@) =~= seq![("interface"@, escape_spec(n.interface@)), ("topology"@, escape_spec(n.topology@)), ("family"@, escape_spec(n.family@)), ("medium"@, escape_spec(n.medium@))]);
    v.push(line("pulsar_network_tx_bytes_sec", lv, u64_text(n.tx_bytes_sec as u64)));
    let lv: Vec<(&'static str, String)> = vec![("interface", escape_label(n.interface.as_str())), ("topology", escape_label(n.topology.as_str())), ("family", escape_label(n.family.as_str())), ("medium", escape_label(n.medium.as_str()))];
    assert(label_views(lv@) =~= seq![("interface"@, escape_spec(n.interface@)), ("topology"@, escape_spec(n.topology@)), ("family"@, escape_spec(n.family@)), ("medium"@, escape_spec(n.medium@))]);
    v.push(line("pulsar_network_rx_packets_sec", lv, u64_text(n.rx_packets_sec as u64)));
    let lv: Vec<(&'static str, String)> = vec![("interface", escape_label(n.interface.as_str())), ("topology", escape_label(n.topology.as_str())), ("family", escape_label(n.family.as_str())), ("medium", escape_label(n.medium.as_str()))];
    assert(label_views(lv@) =~= seq![("interface"@, escape_spec(n.interface@)), ("topology"@, escape_spec(n.topology@)), ("family"@, escape_spec(n.family@)), ("medium"@, escape_spec(n.medium@))]);
    v.push(line("pulsar_network_tx_packets_sec", lv, u64_text(n.tx_packets_sec as u64)));
    let lv: Vec<(&'static str, String)> = vec![("interface", escape_label(n.interface.as_str())), ("topology", escape_label(n.topology.as_str())), ("family", escape_label(n.family.as_str())), ("medium", escape_label(n.medium.as_str()))];
    assert(label_views(lv@) =~= seq![("interface"@, escape_spec(n.interface@)), ("topology"@, escape_spec(n.topology@)), ("family"@, escape_spec(n.family@)), ("medium"@, escape_spec(n.medium@))]);
    v.push(line("pulsar_network_errors_total", lv, u64_text(n.rx_errors + n.tx_errors)));
    let lv: Vec<(&'static str, String)> = vec![("interface", escape_label(n.interface.as_str())), ("topology", escape_label(n.topology.as_str())), ("family", escape_label(n.family.as_str())), ("medium", escape_label(n.medium.as_str()))];
    assert(label_views(lv@) =~= seq![("interface"@, escape_spec(n.interface@)), ("topology"@, escape_spec(n.topology@)), ("family"@, escape_spec(n.family@)), ("medium"@, escape_spec(n.medium@))]);
    v.push(line("pulsar_network_drops_total", lv, u64_text(n.rx_dropped + n.tx_dropped)));
    let lv: Vec<(&'static str, String)> = vec![("interface", escape_label(n.interface.as_str())), ("topology", escape_label(n.topology.as_str())), ("family", escape_label(n.family.as_str())), ("medium", escape_label(n.medium.as_str()))];
    assert(label_views(lv@) =~= seq![("interface"@, escape_spec(n.interface@)), ("topology"@, escape_spec(n.topology@)), ("family"@, escape_spec(n.family@)), ("medium"@, escape_spec(n.medium@))]);
    v.push(line("pulsar_network_connections_total", lv, u64_text(n.connections_total as u64)));
    let lv: Vec<(&'static str, String)> = vec![("interface", escape_label(n.interface.as_str())), ("topology", escape_label(n.topology.as_str())), ("family", escape_label(n.family.as_str())), ("medium", escape_label(n.medium.as_str()))];
    assert(label_views(lv@) =~= seq![("interface"@, escape_spec(n.interface@)), ("topology"@, escape_spec(n.topology@)), ("family"@, escape_spec(n.family@)), ("medium"@, escape_spec(n.medium@))]);
    v.push(line("pulsar_network_connections_established", lv, u64_text(n.connections_established as u64)));
    let lv: Vec<(&'static str, String)> = vec![("interface", escape_label(n.interface.as_str())), ("topology", escape_label(n.topology.as_str())), ("family", escape_label(n.family.as_str())), ("medium", escape_label(n.medium.as_str())), ("state", "established".to_owned())];
    assert(label_views(lv@) =~= seq![("interface"@, escape_spec(n.interface@)), ("topology"@, escape_spec(n.topology@)), ("family"@, escape_spec(n.family@)), ("medium"@, escape_spec(n.medium@)), ("state"@, "established"@)]);
    v.push(line("pulsar_network_tcp_state_count", lv, u64_text(n.connections_established as u64)));
    let lv: Vec<(&'static str, String)> = vec![("interface", escape_label(n.interface.as_str())), ("topology", escape_label(n.topology.as_str())), ("family", escape_label(n.family.as_str())), ("medium", escape_label(n.medium.as_str())), ("state", "listen".to_owned())];
    assert(label_views(lv@) =~= seq![("interface"@, escape_spec(n.interface@)), ("topology"@, escape_spec(n.topology@)), ("family"@, escape_spec(n.family@)), ("medium"@, escape_spec(n.medium@)), ("state"@, "listen"@)]);
    v.push(line("pulsar_network_tcp_state_count", lv, u64_text(n.tcp_listen as u64)));
    let lv: Vec<(&'static str, String)> = vec![("interface", escape_label(n.interface.as_str())), ("topology", escape_label(n.topology.as_str())), ("family", escape_label(n.family.as_str())), ("medium", escape_label(n.medium.as_str())), ("state", "time_wait".to_owned())];
    assert(label_views(lv@) =~= seq![("interface"@, escape_spec(n.interface@)), ("topology"@, escape_spec(n.topology@)), ("family"@, escape_spec(n.family@)), ("medium"@, escape_spec(n.medium@)), ("state"@, "time_wait"@)]);
    v.push(line("pulsar_network_tcp_state_count", lv, u64_text(n.tcp_time_wait as u64)));
    let lv: Vec<(&'static str, String)> = vec![("interface", escape_label(n.interface.as_str())), ("topology", escape_label(n.topology.as_str())), ("family", escape_label(n.family.as_str())), ("medium", escape_label(n.medium.as_str())), ("state", "close_wait".to_owned())];
    assert(label_views(lv@) =~= seq![("interface"@, escape_spec(n.interface@)), ("topology"@, escape_spec(n.topology@)), ("family"@, escape_spec(n.family@)), ("medium"@, escape_spec(n.medium@)), ("state"@, "close_wait"@)]);
    v.push(line("pulsar_network_tcp_state_count", lv, u64_text(n.tcp_close_wait as u64)));
    let lv: Vec<(&'static str, String)> = vec![("interface", escape_label(n.interface.as_str())), ("topology", escape_label(n.topology.as_str())), ("family", escape_label(n.family.as_str())), ("medium", escape_label(n.medium.as_str())), ("state", "syn_sent".to_owned())];
    assert(label_views(lv@) =~= seq![("interface"@, escape_spec(n.interface@)), ("topology"@, escape_spec(n.topology@)), ("family"@, escape_spec(n.family@)), ("medium"@, escape_spec(n.medium@)), ("state"@, "syn_sent"@)]);
    v.push(line("pulsar_network_tcp_state_count", lv, u64_text(n.tcp_syn_sent as u64)));
    let lv: Vec<(&'static str, String)> = vec![("interface", escape_label(n.interface.as_str())), ("topology", escape_label(n.topology.as_str())), ("family", escape_label(n.family.as_str())), ("medium", escape_label(n.medium.as_str())), ("state", "syn_recv".to_owned())];
    assert(label_views(lv@) =~= seq![("interface"@, escape_spec(n.interface@)), ("topology"@, escape_spec(n.topology@)), ("family"@, escape_spec(n.family@)), ("medium"@, escape_spec(n.medium@)), ("state"@, "syn_recv"@)]);
    v.push(line("pulsar_network_tcp_state_count", lv, u64_text(n.tcp_syn_recv as u64)));
    let lv: Vec<(&'static str, String)> = vec![("interface", escape_label(n.interface.as_str())), ("topology", escape_label(n.topology.as_str())), ("family", escape_label(n.family.as_str())), ("medium", escape_label(n.medium.as_str())), ("state", "fin_wait1".to_owned())];
    assert(label_views(lv@) =~= seq![("interface"@, escape_spec(n.interface@)), ("topology"@, escape_spec(n.topology@)), ("family"@, escape_spec(n.family@)), ("medium"@, escape_spec(n.medium@)), ("state"@, "fin_wait1"@)]);
    v.push(line("pulsar_network_tcp_state_count", lv, u64_text(n.tcp_fin_wait1 as u64)));
    let lv: Vec<(&'static str, String)> = vec![("interface", escape_label(n.interface.as_str())), ("topology", escape_label(n.topology.as_str())), ("family", escape_label(n.family.as_str())), ("medium", escape_label(n.medium.as_str())), ("state", "fin_wait2".to_owned())];
    assert(label_views(lv@) =~= seq![("interface"@, escape_spec(n.interface@)), ("topology"@, escape_spec(n.topology@)), ("family"@, escape_spec(n.family@)), ("medium"@, escape_spec(n.medium@)), ("state"@, "fin_wait2"@)]);
    v.push(line("pulsar_network_tcp_state_count", lv, u64_text(n.tcp_fin_wait2 as u64)));
    let lv: Vec<(&'static str, String)> = vec![("interface", escape_label(n.interface.as_str())), ("topology", escape_label(n.topology.as_str())), ("family", escape_label(n.family.as_str())), ("medium", escape_label(n.medium.as_str())), ("state", "last_ack".to_owned())];
    assert(label_views(lv@) =~= seq![("interface"@, escape_spec(n.interface@)), ("topology"@, escape_spec(n.topology@)), ("family"@, escape_spec(n.family@)), ("medium"@, escape_spec(n.medium@)), ("state"@, "last_ack"@)]);
    v.push(line("pulsar_network_tcp_state_count", lv, u64_text(n.tcp_last_ack as u64)));
    let lv: Vec<(&'static str, String)> = vec![("interface", escape_label(n.interface.as_str())), ("topology", escape_label(n.topology.as_str())), ("family", escape_label(n.family.as_str())), ("medium", escape_label(n.medium.as_str())), ("state", "closing".to_owned())];
    assert(label_views(lv@) =~= seq![("interface"@, escape_spec(n.interface@)), ("topology"@, escape_spec(n.topology@)), ("family"@, escape_spec(n.family@)), ("medium"@, escape_spec(n.medium@)), ("state"@, "closing"@)]);
    v.push(line("pulsar_network_tcp_state_count", lv, u64_text(n.tcp_closing as u64)));
    let lv: Vec<(&'static str, String)> = vec![("interface", escape_label(n.interface.as_str())), ("topology", escape_label(n.topology.as_str())), ("family", escape_label(n.family.as_str())), ("medium", escape_label(n.medium.as_str())), ("state", "close".to_owned())];
    assert(label_views(lv@) =~= seq![("interface"@, escape_spec(n.interface@)), ("topology"@, escape_spec(n.topology@)), ("family"@, escape_spec(n.family@)), ("medium"@, escape_spec(n.medium@)), ("state"@, "close"@)]);
    v.push(line("pulsar_network_tcp_state_count", lv, u64_text(n.tcp_close as u64)));
    let lv: Vec<(&'static str, String)> = vec![("interface", escape_label(n.interface.as_str())), ("topology", escape_label(n.topology.as_str())), ("family", escape_label(n.family.as_str())), ("medium", escape_label(n.medium.as_str())), ("state", "other".to_owned())];
    assert(label_views(lv@) =~= seq![("interface"@, escape_spec(n.interface@)), ("topology"@, escape_spec(n.topology@)), ("family"@, escape_spec(n.family@)), ("medium"@, escape_spec(n.medium@)), ("state"@, "other"@)]);
    v.push(line("pulsar_network_tcp_state_count", lv, u64_text(n.tcp_other as u64)));
    let lv: Vec<(&'static str, String)> = vec![("interface", escape_label(n.interface.as_str())), ("topology", escape_label(n.topology.as_str())), ("family", escape_label(n.family.as_str())), ("medium", escape_label(n.medium.as_str())), ("state", "total".to_owned())];
    assert(label_views(lv@) =~= seq![("interface"@, escape_spec(n.interface@)), ("topology"@, escape_spec(n.topology@)), ("family"@, escape_spec(n.family@)), ("medium"@, escape_spec(n.medium@)), ("state"@, "total"@)]);
    v.push(line("pulsar_network_udp_state_count", lv, u64_text(n.udp_total as u64)));
    let lv: Vec<(&'static str, String)> = vec![("interface", escape_label(n.interface.as_str())), ("topology", escape_label(n.topology.as_str())), ("family", escape_label(n.family.as_str())), ("medium", escape_label(n.medium.as_str())), ("state", "established".to_owned())];
    assert(label_views(lv@) =~= seq![("interface"@, escape_spec(n.interface@)), ("topology"@, escape_spec(n.topology@)), ("family"@, escape_spec(n.family@)), ("medium"@, escape_spec(n.medium@)), ("state"@, "established"@)]);
    v.push(line("pulsar_network_udp_state_count", lv, u64_text(n.udp_established as u64)));
    let lv: Vec<(&'static str, String)> = vec![("interface", escape_label(n.interface.as_str())), ("topology", escape_label(n.topology.as_str())), ("family", escape_label(n.family.as_str())), ("medium", escape_label(n.medium.as_str())), ("state", "close".to_owned())];
    assert(label_views(lv@) =~= seq![("interface"@, escape_spec(n.interface@)), ("topology"@, escape_spec(n.topology@)), ("family"@, escape_spec(n.family@)), ("medium"@, escape_spec(n.medium@)), ("state"@, "close"@)]);
    v.push(line("pulsar_network_udp_state_count", lv, u64_text(n.udp_close as u64)));
    let lv: Vec<(&'static str, String)> = vec![("interface", escape_label(n.interface.as_str())), ("topology", escape_label(n.topology.as_str())), ("family", escape_label(n.family.as_str())), ("medium", escape_label(n.medium.as_str())), ("state", "other".to_owned())];
    assert(label_views(lv@) =~= seq![("interface"@, escape_spec(n.interface@)), ("topology"@, escape_spec(n.topology@)), ("family"@, escape_spec(n.family@)), ("medium"@, escape_spec(n.medium@)), ("state"@, "other"@)]);
    v.push(line("pulsar_network_udp_state_count", lv, u64_text(n.udp_other as u64)));
    let lv: Vec<(&'static str, String)> = vec![("interface", escape_label(n.interface.as_str())), ("topology", escape_label(n.topology.as_str())), ("family", escape_label(n.family.as_str())), ("medium", escape_label(n.medium.as_str()))];
    assert(label_views(lv@) =~= seq![("interface"@, escape_spec(n.interface@)), ("topology"@, escape_spec(n.topology@)), ("family"@, escape_spec(n.family@)), ("medium"@, escape_spec(n.medium@))]);
    v.push(line("pulsar_network_tcp_retrans_segments", lv, u64_text(n.retrans_segs as u64)));
    assert(piece_views(v@) =~= net_pieces_spec(*n));
    v
}

/// The lines of the interfaces, interface after interface.
pub open spec fn nets_pieces_spec(s: Seq<NetFigures>) -> Seq<PieceView>
    decreases s.len(),
{
    if s.len() == 0 {
        Seq::empty()
    } else {
        nets_pieces_spec(s.drop_last()) + net_pieces_spec(s.last())
    }
}

fn nets_pieces(s: &Vec<NetFigures>) -> (r: Vec<Piece>)
    requires
        forall|i: int| 0 <= i < s.len() ==> net_fits(#[trigger] s@[i]),
    ensures
        piece_views(r@) == nets_pieces_spec(s@),
{
    let mut out: Vec<Piece> = Vec::new();
    let mut i: usize = 0;
    while i < s.len()
        invariant
            i <= s.len(),
            forall|i: int| 0 <= i < s.len() ==> net_fits(#[trigger] s@[i]),
            piece_views(out@) == nets_pieces_spec(s@.take(i as int)),
        decreases s.len() - i,
    {
        assert(s@.take(i + 1).drop_last() =~= s@.take(i as int));
        assert(s@.take(i + 1).last() == s@[i as int]);
        let mut more = net_pieces(&s[i]);
        let ghost before = out@;
        let ghost added = more@;
        out.append(&mut more);
        assert(piece_views(out@) =~= piece_views(before) + piece_views(added));
        i += 1;
    }
    assert(s@.take(s.len() as int) =~= s@);
    out
}

/// The host families.
pub open spec fn system_pieces_spec(s: SystemFigures) -> Seq<PieceView> {
    seq![hdr_spec("pulsar_system_uptime_seconds", "System uptime in seconds"), line_spec("pulsar_system_uptime_seconds", Seq::empty(), decimal(s.uptime_seconds as nat)), hdr_spec("pulsar_system_cpu_count", "System CPU count"), line_spec("pulsar_system_cpu_count", Seq::empty(), decimal(s.cpu_count as nat)), hdr_spec("pulsar_system_info", "System metadata labels"), line_spec("pulsar_system_info", seq![("hostname"@, escape_spec(s.hostname@)), ("os"@, escape_spec(s.os_name@)), ("os_version"@, escape_spec(s.os_version@)), ("kernel"@, escape_spec(s.kernel_version@)), ("arch"@, escape_spec(s.architecture@))], "1"@)]
}

fn system_pieces(s: &SystemFigures) -> (r: Vec<Piece>)
    ensures
        piece_views(r@) == system_pieces_spec(*s),
{
    let mut v: Vec<Piece> = Vec::new();
    v.push(header("pulsar_system_uptime_seconds", "System uptime in seconds"));
    let lv: Vec<(&'static str, String)> = Vec::new();
    assert(label_views(lv@) =~= Seq::<(Seq<char>, Seq<char>)>::empty());
    v.push(line("pulsar_system_uptime_seconds", lv, u64_text(s.uptime_seconds as u64)));
    v.push(header("pulsar_system_cpu_count", "System CPU count"));
    let lv: Vec<(&'static str, String)> = Vec::new();
    assert(label_views(lv@) =~= Seq::<(Seq<char>, Seq<char>)>::empty());
    v.push(line("pulsar_system_cpu_count", lv, u64_text(s.cpu_count as u64)));
    v.push(header("pulsar_system_info", "System metadata labels"));
    let lv: Vec<(&'static str, String)> = vec![("hostname", escape_label(s.hostname.as_str())), ("os", escape_label(s.os_name.as_str())), ("os_version", escape_label(s.os_version.as_str())), ("kernel", escape_label(s.kernel_version.as_str())), ("arch", escape_label(s.architecture.as_str()))];
    assert(label_views(lv@) =~= seq![("hostname"@, escape_spec(s.hostname@)), ("os"@, escape_spec(s.os_name@)), ("os_version"@, escape_spec(s.os_version@)), ("kernel"@, escape_spec(s.kernel_version@)), ("arch"@, escape_spec(s.architecture@))]);
    v.push(line("pulsar_system_info", lv, "1".to_owned()));
    assert(piece_views(v@) =~= system_pieces_spec(*s));
    v
}

/// The cgroup identity and current memory.
pub open spec fn cgroup_head_pieces_spec(g: CgroupFigures) -> Seq<PieceView> {
    seq![hdr_spec("pulsar_linux_cgroup_info", "Linux cgroup metadata labels"), line_spec("pulsar_linux_cgroup_info", seq![("version"@, decimal(g.version as nat)), ("path"@, escape_spec(g.path@))], "1"@), hdr_spec("pulsar_linux_cgroup_memory_current_bytes", "Current cgroup memory usage in bytes"), line_spec("pulsar_linux_cgroup_memory_current_bytes", Seq::empty(), decimal(g.memory_current_bytes as nat))]
}

fn cgroup_head_pieces(g: &CgroupFigures) -> (r: Vec<Piece>)
    ensures
        piece_views(r@) == cgroup_head_pieces_spec(*g),
{
    let mut v: Vec<Piece> = Vec::new();
    v.push(header("pulsar_linux_cgroup_info", "Linux cgroup metadata labels"));
    let lv: Vec<(&'static str, String)> = vec![("version", u64_text(g.version as u64)), ("path", escape_label(g.path.as_str()))];
    assert(label_views(lv@) =~= seq![("version"@, decimal(g.version as nat)), ("path"@, escape_spec(g.path@))]);
    v.push(line("pulsar_linux_cgroup_info", lv, "1".to_owned()));
    v.push(header("pulsar_linux_cgroup_memory_current_bytes", "Current cgroup memory usage in bytes"));
    let lv: Vec<(&'static str, String)> = Vec::new();
    assert(label_views(lv@) =~= Seq::<(Seq<char>, Seq<char>)>::empty());
    v.push(line("pulsar_linux_cgroup_memory_current_bytes", lv, u64_text(g.memory_current_bytes as u64)));
    assert(piece_views(v@) =~= cgroup_head_pieces_spec(*g));
    v
}

/// The cgroup memory share and pid count.
pub open spec fn cgroup_mid_pieces_spec(g: CgroupFigures) -> Seq<PieceView> {
    seq![hdr_spec("pulsar_linux_cgroup_memory_usage_percent", "Cgroup memory usage percentage against the configured limit"), line_spec("pulsar_linux_cgroup_memory_usage_percent", Seq::empty(), g.usage@), hdr_spec("pulsar_linux_cgroup_pids_current", "Current cgroup pid usage"), line_spec("pulsar_linux_cgroup_pids_current", Seq::empty(), decimal(g.pids_current as nat))]
}

fn cgroup_mid_pieces(g: &CgroupFigures) -> (r: Vec<Piece>)
    ensures
        piece_views(r@) == cgroup_mid_pieces_spec(*g),
{
    let mut v: Vec<Piece> = Vec::new();
    v.push(header("pulsar_linux_cgroup_memory_usage_percent", "Cgroup memory usage percentage against the configured limit"));
    let lv: Vec<(&'static str, String)> = Vec::new();
    assert(label_views(lv@) =~= Seq::<(Seq<char>, Seq<char>)>::empty());
    v.push(line("pulsar_linux_cgroup_memory_usage_percent", lv, g.usage.clone()));
    v.push(header("pulsar_linux_cgroup_pids_current", "Current cgroup pid usage"));
    let lv: Vec<(&'static str, String)> = Vec::new();
    assert(label_views(lv@) =~= Seq::<(Seq<char>, Seq<char>)>::empty());
    v.push(line("pulsar_linux_cgroup_pids_current", lv, u64_text(g.pids_current as u64)));
    assert(piece_views(v@) =~= cgroup_mid_pieces_spec(*g));
    v
}

/// The cgroup CPU figures.
pub open spec fn cgroup_tail_pieces_spec(g: CgroupFigures) -> Seq<PieceView> {
    seq![hdr_spec("pulsar_linux_cgroup_cpu_usage_usec", "Total cgroup CPU usage in microseconds"), line_spec("pulsar_linux_cgroup_cpu_usage_usec", Seq::empty(), decimal(g.cpu_usage_usec as nat)), hdr_spec("pulsar_linux_cgroup_cpu_nr_throttled", "Number of throttled CPU periods in the cgroup"), line_spec("pulsar_linux_cgroup_cpu_nr_throttled", Seq::empty(), decimal(g.cpu_nr_throttled as nat)), hdr_spec("pulsar_linux_cgroup_cpu_throttled_usec", "Total throttled CPU time in microseconds"), line_spec("pulsar_linux_cgroup_cpu_throttled_usec", Seq::empty(), decimal(g.cpu_throttled_usec as nat))]
}

fn cgroup_tail_pieces(g: &CgroupFigures) -> (r: Vec<Piece>)
    ensures
        piece_views(r@) == cgroup_tail_pieces_spec(*g),
{
    let mut v: Vec<Piece> = Vec::new();
    v.push(header("pulsar_linux_cgroup_cpu_usage_usec", "Total cgroup CPU usage in microseconds"));
    let lv: Vec<(&'static str, String)> = Vec::new();
    assert(label_views(lv@) =~= Seq::<(Seq<char>, Seq<char>)>::empty());
    v.push(line("pulsar_linux_cgroup_cpu_usage_usec", lv, u64_text(g.cpu_usage_usec as u64)));
    v.push(header("pulsar_linux_cgroup_cpu_nr_throttled", "Number of throttled CPU periods in the cgroup"));
    let lv: Vec<(&'static str, String)> = Vec::new();
    assert(label_views(lv@) =~= Seq::<(Seq<char>, Seq<char>)>::empty());
    v.push(line("pulsar_linux_cgroup_cpu_nr_throttled", lv, u64_text(g.cpu_nr_throttled as u64)));
    v.push(header("pulsar_linux_cgroup_cpu_throttled_usec", "Total throttled CPU time in microseconds"));
    let lv: Vec<(&'static str, String)> = Vec::new();
    assert(label_views(lv@) =~= Seq::<(Seq<char>, Seq<char>)>::empty());
    v.push(line("pulsar_linux_cgroup_cpu_throttled_usec", lv, u64_text(g.cpu_throttled_usec as u64)));
    assert(piece_views(v@) =~= cgroup_tail_pieces_spec(*g));
    v
}

/// The headers of the pressure-stall families, written once before the
/// first pressure-stall line.
pub open spec fn pressure_headers_spec() -> Seq<PieceView> {
    seq![
        hdr_spec("pulsar_linux_psi_avg10", "Pressure stall avg10 percentage"),
        hdr_spec("pulsar_linux_psi_avg60", "Pressure stall avg60 percentage"),
        hdr_spec("pulsar_linux_psi_avg300", "Pressure stall avg300 percentage"),
        hdr_spec("pulsar_linux_psi_total", "Pressure stall total time in microseconds"),
    ]
}

fn pressure_headers() -> (r: Vec<Piece>)
    ensures
        piece_views(r@) == pressure_headers_spec(),
{
    let mut v: Vec<Piece> = Vec::new();
    v.push(header("pulsar_linux_psi_avg10", "Pressure stall avg10 percentage"));
    v.push(header("pulsar_linux_psi_avg60", "Pressure stall avg60 percentage"));
    v.push(header("pulsar_linux_psi_avg300", "Pressure stall avg300 percentage"));
    v.push(header("pulsar_linux_psi_total", "Pressure stall total time in microseconds"));
    assert(piece_views(v@) =~= pressure_headers_spec());
    v
}

/// The samples of one pressure-stall line.
pub open spec fn pressure_pieces_spec(p: PressureFigures) -> Seq<PieceView> {
    seq![
        line_spec("pulsar_linux_psi_avg10", seq![("resource"@, p.resource@), ("scope"@, p.scope@)], p.avg10@),
        line_spec("pulsar_linux_psi_avg60", seq![("resource"@, p.resource@), ("scope"@, p.scope@)], p.avg60@),
        line_spec("pulsar_linux_psi_avg300", seq![("resource"@, p.resource@), ("scope"@, p.scope@)], p.avg300@),
        line_spec("pulsar_linux_psi_total", seq![("resource"@, p.resource@), ("scope"@, p.scope@)], decimal(p.total as nat)),
    ]
}

fn pressure_pieces(p: &PressureFigures) -> (r: Vec<Piece>)
    ensures
        piece_views(r@) == pressure_pieces_spec(*p),
{
    let mut v: Vec<Piece> = Vec::new();
    let lv: Vec<(&'static str, String)> = vec![("resource", p.resource.clone()), ("scope", p.scope.clone())];
    assert(label_views(lv@) =~= seq![("resource"@, p.resource@), ("scope"@, p.scope@)]);
    v.push(line("pulsar_linux_psi_avg10", lv, p.avg10.clone()));
    let lv: Vec<(&'static str, String)> = vec![("resource", p.resource.clone()), ("scope", p.scope.clone())];
    assert(label_views(lv@) =~= seq![("resource"@, p.resource@), ("scope"@, p.scope@)]);
    v.push(line("pulsar_linux_psi_avg60", lv, p.avg60.clone()));
    let lv: Vec<(&'static str, String)> = vec![("resource", p.resource.clone()), ("scope", p.scope.clone())];
    assert(label_views(lv@) =~= seq![("resource"@, p.resource@), ("scope"@, p.scope@)]);
    v.push(line("pulsar_linux_psi_avg300", lv, p.avg300.clone()));
    let lv: Vec<(&'static str, String)> = vec![("resource", p.resource.clone()), ("scope", p.scope.clone())];
    assert(label_views(lv@) =~= seq![("resource"@, p.resource@), ("scope"@, p.scope@)]);
    v.push(line("pulsar_linux_psi_total", lv, u64_text(p.total as u64)));
    assert(piece_views(v@) =~= pressure_pieces_spec(*p));
    v
}

/// The pressure-stall lines, in order.
pub open spec fn pressures_pieces_spec(s: Seq<PressureFigures>) -> Seq<PieceView>
    decreases s.len(),
{
    if s.len() == 0 {
        Seq::empty()
    } else {
        pressures_pieces_spec(s.drop_last()) + pressure_pieces_spec(s.last())
    }
}

fn pressures_pieces(s: &Vec<PressureFigures>) -> (r: Vec<Piece>)
    ensures
        piece_views(r@) == pressures_pieces_spec(s@),
{
    let mut out: Vec<Piece> = Vec::new();
    let mut i: usize = 0;
    while i < s.len()
        invariant
            i <= s.len(),
            piece_views(out@) == pressures_pieces_spec(s@.take(i as int)),
        decreases s.len() - i,
    {
        assert(s@.take(i + 1).drop_last() =~= s@.take(i as int));
        assert(s@.take(i + 1).last() == s@[i as int]);
        let mut more = pressure_pieces(&s[i]);
        let ghost before = out@;
        let ghost added = more@;
        out.append(&mut more);
        assert(piece_views(out@) =~= piece_views(before) + piece_views(added));
        i += 1;
    }
    assert(s@.take(s.len() as int) =~= s@);
    out
}

/// The pipeline figures and alert counts.
pub open spec fn computed_pieces_spec(c: ComputedFigures) -> Seq<PieceView> {
    seq![hdr_spec("pulsar_computed_cpu_trend_p50", "CPU usage rolling p50"), line_spec("pulsar_computed_cpu_trend_p50", Seq::empty(), c.cpu_trend_p50@), hdr_spec("pulsar_computed_cpu_trend_p95", "CPU usage rolling p95"), line_spec("pulsar_computed_cpu_trend_p95", Seq::empty(), c.cpu_trend_p95@), hdr_spec("pulsar_computed_memory_pressure", "Memory pressure score"), line_spec("pulsar_computed_memory_pressure", Seq::empty(), c.memory_pressure@), hdr_spec("pulsar_alerts_total", "Active alert count"), line_spec("pulsar_alerts_total", Seq::empty(), decimal(c.alerts_total as nat))] + seq![hdr_spec("pulsar_alerts_info", "Active info alert count"), line_spec("pulsar_alerts_info", Seq::empty(), decimal(c.alerts_info as nat)), hdr_spec("pulsar_alerts_warning", "Active warning alert count"), line_spec("pulsar_alerts_warning", Seq::empty(), decimal(c.alerts_warning as nat)), hdr_spec("pulsar_alerts_critical", "Active critical alert count"), line_spec("pulsar_alerts_critical", Seq::empty(), decimal(c.alerts_critical as nat))]
}

fn computed_pieces(c: &ComputedFigures) -> (r: Vec<Piece>)
    ensures
        piece_views(r@) == computed_pieces_spec(*c),
{
    let mut v: Vec<Piece> = Vec::new();
    v.push(header("pulsar_computed_cpu_trend_p50", "CPU usage rolling p50"));
    let lv: Vec<(&'static str, String)> = Vec::new();
    assert(label_views(lv@) =~= Seq::<(Seq<char>, Seq<char>)>::empty());
    v.push(line("pulsar_computed_cpu_trend_p50", lv, c.cpu_trend_p50.clone()));
    v.push(header("pulsar_computed_cpu_trend_p95", "CPU usage rolling p95"));
    let lv: Vec<(&'static str, String)> = Vec::new();
    assert(label_views(lv@) =~= Seq::<(Seq<char>, Seq<char>)>::empty());
    v.push(line("pulsar_computed_cpu_trend_p95", lv, c.cpu_trend_p95.clone()));
    v.push(header("pulsar_computed_memory_pressure", "Memory pressure score"));
    let lv: Vec<(&'static str, String)> = Vec::new();
    assert(label_views(lv@) =~= Seq::<(Seq<char>, Seq<char>)>::empty());
    v.push(line("pulsar_computed_memory_pressure", lv, c.memory_pressure.clone()));
    v.push(header("pulsar_alerts_total", "Active alert count"));
    let lv: Vec<(&'static str, String)> = Vec::new();
    assert(label_views(lv@) =~= Seq::<(Seq<char>, Seq<char>)>::empty());
    v.push(line("pulsar_alerts_total", lv, u64_text(c.alerts_total as u64)));
    v.push(header("pulsar_alerts_info", "Active info alert count"));
    let lv: Vec<(&'static str, String)> = Vec::new();
    assert(label_views(lv@) =~= Seq::<(Seq<char>, Seq<char>)>::empty());
    v.push(line("pulsar_alerts_info", lv, u64_text(c.alerts_info as u64)));
    v.push(header("pulsar_alerts_warning", "Active warning alert count"));
    let lv: Vec<(&'static str, String)> = Vec::new();
    assert(label_views(lv@) =~= Seq::<(Seq<char>, Seq<char>)>::empty());
    v.push(line("pulsar_alerts_warning", lv, u64_text(c.alerts_warning as u64)));
    v.push(header("pulsar_alerts_critical", "Active critical alert count"));
    let lv: Vec<(&'static str, String)> = Vec::new();
    assert(label_views(lv@) =~= Seq::<(Seq<char>, Seq<char>)>::empty());
    v.push(line("pulsar_alerts_critical", lv, u64_text(c.alerts_critical as u64)));
    assert(piece_views(v@) =~= computed_pieces_spec(*c));
    v
}

// ─── CSV ────────────────────────────────────────────────────────────────────
/// The CPU rows, before the per-core rows.
pub open spec fn cpu_rows_spec(c: CpuFigures) -> Seq<(Seq<char>, Seq<char>)> {
    seq![("cpu.global_usage_pct"@, c.usage@), ("cpu.load_avg_1"@, c.load_1@), ("cpu.load_avg_5"@, c.load_5@), ("cpu.load_avg_15"@, c.load_15@), ("cpu.iowait_pct"@, c.iowait@), ("cpu.steal_pct"@, c.steal@), ("cpu.mode.user_pct"@, c.mode_user@), ("cpu.mode.nice_pct"@, c.mode_nice@)] + seq![("cpu.mode.system_pct"@, c.mode_system@), ("cpu.mode.idle_pct"@, c.mode_idle@), ("cpu.mode.irq_pct"@, c.mode_irq@), ("cpu.mode.softirq_pct"@, c.mode_softirq@), ("cpu.context_switches"@, decimal(c.context_switches as nat)), ("cpu.interrupts"@, decimal(c.interrupts as nat))]
}

fn cpu_rows(c: &CpuFigures) -> (r: Vec<(String, String)>)
    ensures
        row_views(r@) == cpu_rows_spec(*c),
{
    let mut v: Vec<(String, String)> = Vec::new();
    let key = "cpu.global_usage_pct".to_owned();
    v.push((key, c.usage.clone()));
    let key = "cpu.load_avg_1".to_owned();
    v.push((key, c.load_1.clone()));
    let key = "cpu.load_avg_5".to_owned();
    v.push((key, c.load_5.clone()));
    let key = "cpu.load_avg_15".to_owned();
    v.push((key, c.load_15.clone()));
    let key = "cpu.iowait_pct".to_owned();
    v.push((key, c.iowait.clone()));
    let key = "cpu.steal_pct".to_owned();
    v.push((key, c.steal.clone()));
    let key = "cpu.mode.user_pct".to_owned();
    v.push((key, c.mode_user.clone()));
    let key = "cpu.mode.nice_pct".to_owned();
    v.push((key, c.mode_nice.clone()));
    let key = "cpu.mode.system_pct".to_owned();
    v.push((key, c.mode_system.clone()));
    let key = "cpu.mode.idle_pct".to_owned();
    v.push((key, c.mode_idle.clone()));
    let key = "cpu.mode.irq_pct".to_owned();
    v.push((key, c.mode_irq.clone()));
    let key = "cpu.mode.softirq_pct".to_owned();
    v.push((key, c.mode_softirq.clone()));
    let key = "cpu.context_switches".to_owned();
    v.push((key, u64_text(c.context_switches as u64)));
    let key = "cpu.interrupts".to_owned();
    v.push((key, u64_text(c.interrupts as u64)));
    assert(row_views(v@) =~= cpu_rows_spec(*c));
    v
}

/// The row of one core.
pub open spec fn core_rows_spec(c: CoreFigure) -> Seq<(Seq<char>, Seq<char>)> {
    seq![("cpu.core_"@ + decimal(c.id as nat) + ".usage_pct"@, c.usage@)]
}

fn core_rows(c: &CoreFigure) -> (r: Vec<(String, String)>)
    ensures
        row_views(r@) == core_rows_spec(*c),
{
    let mut v: Vec<(String, String)> = Vec::new();
    let key = {
        let mut k = String::new();
        push_str(&mut k, "cpu.core_");
        push_str(&mut k, u64_text(c.id as u64).as_str());
        push_str(&mut k, ".usage_pct");
        k
    };
    v.push((key, c.usage.clone()));
    assert(row_views(v@) =~= core_rows_spec(*c));
    v
}

/// The rows of the cores, in order.
pub open spec fn cores_rows_spec(s: Seq<CoreFigure>) -> Seq<(Seq<char>, Seq<char>)>
    decreases s.len(),
{
    if s.len() == 0 {
        Seq::empty()
    } else {
        cores_rows_spec(s.drop_last()) + core_rows_spec(s.last())
    }
}

fn cores_rows(s: &Vec<CoreFigure>) -> (r: Vec<(String, String)>)
    ensures
        row_views(r@) == cores_rows_spec(s@),
{
    let mut out: Vec<(String, String)> = Vec::new();
    let mut i: usize = 0;
    while i < s.len()
        invariant
            i <= s.len(),
            row_views(out@) == cores_rows_spec(s@.take(i as int)),
        decreases s.len() - i,
    {
        assert(s@.take(i + 1).drop_last() =~= s@.take(i as int));
        assert(s@.take(i + 1).last() == s@[i as int]);
        let mut more = core_rows(&s[i]);
        let ghost before = out@;
        let ghost added = more@;
        out.append(&mut more);
        assert(row_views(out@) =~= row_views(before) + row_views(added));
        i += 1;
    }
    assert(s@.take(s.len() as int) =~= s@);
    out
}

/// The memory rows, in KiB.
pub open spec fn memory_rows_spec(m: MemoryFigures) -> Seq<(Seq<char>, Seq<char>)> {
    seq![("mem.total_kb"@, decimal(m.total_kb as nat)), ("mem.used_kb"@, decimal(m.used_kb as nat)), ("mem.usage_pct"@, m.usage@), ("mem.available_kb"@, decimal(m.available_kb as nat)), ("mem.cached_kb"@, decimal(m.cached_kb as nat)), ("mem.buffers_kb"@, decimal(m.buffers_kb as nat)), ("mem.swap_used_kb"@, decimal(m.swap_used_kb as nat)), ("mem.dirty_kb"@, decimal(m.dirty_kb as nat))] + seq![("mem.vm_pgfault"@, decimal(m.vm_pgfault as nat)), ("mem.vm_pgmajfault"@, decimal(m.vm_pgmajfault as nat)), ("mem.vm_pgpgin"@, decimal(m.vm_pgpgin as nat)), ("mem.vm_pgpgout"@, decimal(m.vm_pgpgout as nat)), ("mem.vm_pswpin"@, decimal(m.vm_pswpin as nat)), ("mem.vm_pswpout"@, decimal(m.vm_pswpout as nat)), ("mem.vm_pgscan"@, decimal(m.vm_pgscan as nat)), ("mem.vm_pgsteal"@, decimal(m.vm_pgsteal as nat))]
}

fn memory_rows(m: &MemoryFigures) -> (r: Vec<(String, String)>)
    ensures
        row_views(r@) == memory_rows_spec(*m),
{
    let mut v: Vec<(String, String)> = Vec::new();
    let key = "mem.total_kb".to_owned();
    v.push((key, u64_text(m.total_kb as u64)));
    let key = "mem.used_kb".to_owned();
    v.push((key, u64_text(m.used_kb as u64)));
    let key = "mem.usage_pct".to_owned();
    v.push((key, m.usage.clone()));
    let key = "mem.available_kb".to_owned();
    v.push((key, u64_text(m.available_kb as u64)));
    let key = "mem.cached_kb".to_owned();
    v.push((key, u64_text(m.cached_kb as u64)));
    let key = "mem.buffers_kb".to_owned();
    v.push((key, u64_text(m.buffers_kb as u64)));
    let key = "mem.swap_used_kb".to_owned();
    v.push((key, u64_text(m.swap_used_kb as u64)));
    let key = "mem.dirty_kb".to_owned();
    v.push((key, u64_text(m.dirty_kb as u64)));
    let key = "mem.vm_pgfault".to_owned();
    v.push((key, u64_text(m.vm_pgfault as u64)));
    let key = "mem.vm_pgmajfault".to_owned();
    v.push((key, u64_text(m.vm_pgmajfault as u64)));
    let key = "mem.vm_pgpgin".to_owned();
    v.push((key, u64_text(m.vm_pgpgin as u64)));
    let key = "mem.vm_pgpgout".to_owned();
    v.push((key, u64_text(m.vm_pgpgout as u64)));
    let key = "mem.vm_pswpin".to_owned();
    v.push((key, u64_text(m.vm_pswpin as u64)));
    let key = "mem.vm_pswpout".to_owned();
    v.push((key, u64_text(m.vm_pswpout as u64)));
    let key = "mem.vm_pgscan".to_owned();
    v.push((key, u64_text(m.vm_pgscan as u64)));
    let key = "mem.vm_pgsteal".to_owned();
    v.push((key, u64_text(m.vm_pgsteal as u64)));
    assert(row_views(v@) =~= memory_rows_spec(*m));
    v
}

/// The rows of one disk; the volume kind, file-system family and scheduler rows only when they are known.
pub open spec fn disk_rows_spec(d: DiskFigures) -> Seq<(Seq<char>, Seq<char>)> {
    seq![("disk."@ + metric_label_spec(d.device@) + ".structure."@ + metric_label_spec(d.structure@), "1"@), ("disk."@ + metric_label_spec(d.device@) + ".protocol."@ + metric_label_spec(d.protocol@), "1"@), ("disk."@ + metric_label_spec(d.device@) + ".media."@ + metric_label_spec(d.media@), "1"@)]
        + (if d.volume_kind@.len() > 0 { seq![("disk."@ + metric_label_spec(d.device@) + ".volume_kind."@ + metric_label_spec(d.volume_kind@), "1"@)] } else { Seq::empty() })
        + (if d.filesystem_family@.len() > 0 { seq![("disk."@ + metric_label_spec(d.device@) + ".filesystem_family."@ + metric_label_spec(d.filesystem_family@), "1"@)] } else { Seq::empty() })
        + (if d.scheduler@.len() > 0 { seq![("disk."@ + metric_label_spec(d.device@) + ".scheduler."@ + metric_label_spec(d.scheduler@), "1"@)] } else { Seq::empty() })
        + seq![("disk."@ + metric_label_spec(d.device@) + ".stack_depth"@, decimal(d.stack_depth as nat)), ("disk."@ + metric_label_spec(d.device@) + ".children_count"@, decimal(d.children_count as nat)), ("disk."@ + metric_label_spec(d.device@) + ".holders_count"@, decimal(d.holders_count as nat)), ("disk."@ + metric_label_spec(d.device@) + ".slaves_count"@, decimal(d.slaves_count as nat)), ("disk."@ + metric_label_spec(d.device@) + ".flag.rotational"@, (if d.rotational { "1"@ } else { "0"@ })), ("disk."@ + metric_label_spec(d.device@) + ".flag.removable"@, (if d.removable { "1"@ } else { "0"@ })), ("disk."@ + metric_label_spec(d.device@) + ".flag.read_only"@, (if d.read_only { "1"@ } else { "0"@ })), ("disk."@ + metric_label_spec(d.device@) + ".usage_pct"@, d.usage@)] + seq![("disk."@ + metric_label_spec(d.device@) + ".read_iops"@, decimal(d.read_iops as nat)), ("disk."@ + metric_label_spec(d.device@) + ".write_iops"@, decimal(d.write_iops as nat)), ("disk."@ + metric_label_spec(d.device@) + ".read_kb_sec"@, decimal(d.read_kb_sec as nat)), ("disk."@ + metric_label_spec(d.device@) + ".write_kb_sec"@, decimal(d.write_kb_sec as nat)), ("disk."@ + metric_label_spec(d.device@) + ".await_ms"@, d.await_ms@), ("disk."@ + metric_label_spec(d.device@) + ".service_time_ms"@, d.service_time_ms@), ("disk."@ + metric_label_spec(d.device@) + ".queue_depth"@, d.queue_depth@), ("disk."@ + metric_label_spec(d.device@) + ".util_pct"@, d.util@)] + seq![("disk."@ + metric_label_spec(d.device@) + ".read_merged_ops_sec"@, decimal(d.read_merged_ops_sec as nat)), ("disk."@ + metric_label_spec(d.device@) + ".write_merged_ops_sec"@, decimal(d.write_merged_ops_sec as nat))]
}

#[verifier::rlimit(60)]
fn disk_rows(d: &DiskFigures) -> (r: Vec<(String, String)>)
    ensures
        row_views(r@) == disk_rows_spec(*d),
{
    let mut v: Vec<(String, String)> = Vec::new();
    let key = {
        let mut k = String::new();
        push_str(&mut k, "disk.");
        push_str(&mut k, metric_label(d.device.as_str()).as_str());
        push_str(&mut k, ".structure.");
        push_str(&mut k, metric_label(d.structure.as_str()).as_str());
        k
    };
    v.push((key, "1".to_owned()));
    let key = {
        let mut k = String::new();
        push_str(&mut k, "disk.");
        push_str(&mut k, metric_label(d.device.as_str()).as_str());
        push_str(&mut k, ".protocol.");
        push_str(&mut k, metric_label(d.protocol.as_str()).as_str());
        k
    };
    v.push((key, "1".to_owned()));
    let key = {
        let mut k = String::new();
        push_str(&mut k, "disk.");
        push_str(&mut k, metric_label(d.device.as_str()).as_str());
        push_str(&mut k, ".media.");
        push_str(&mut k, metric_label(d.media.as_str()).as_str());
        k
    };
    v.push((key, "1".to_owned()));
    if !d.volume_kind.as_str().is_empty() {
        let key = {
        let mut k = String::new();
        push_str(&mut k, "disk.");
        push_str(&mut k, metric_label(d.device.as_str()).as_str());
        push_str(&mut k, ".volume_kind.");
        push_str(&mut k, metric_label(d.volume_kind.as_str()).as_str());
        k
    };
        v.push((key, "1".to_owned()));
    }
    if !d.filesystem_family.as_str().is_empty() {
        let key = {
        let mut k = String::new();
        push_str(&mut k, "disk.");
        push_str(&mut k, metric_label(d.device.as_str()).as_str());
        push_str(&mut k, ".filesystem_family.");
        push_str(&mut k, metric_label(d.filesystem_family.as_str()).as_str());
        k
    };
        v.push((key, "1".to_owned()));
    }
    if !d.scheduler.as_str().is_empty() {
        let key = {
        let mut k = String::new();
        push_str(&mut k, "disk.");
        push_str(&mut k, metric_label(d.device.as_str()).as_str());
        push_str(&mut k, ".scheduler.");
        push_str(&mut k, metric_label(d.scheduler.as_str()).as_str());
        k
    };
        v.push((key, "1".to_owned()));
    }
    let key = {
        let mut k = String::new();
        push_str(&mut k, "disk.");
        push_str(&mut k, metric_label(d.device.as_str()).as_str());
        push_str(&mut k, ".stack_depth");
        k
    };
    v.push((key, u64_text(d.stack_depth as u64)));
    let key = {
        let mut k = String::new();
        push_str(&mut k, "disk.");
        push_str(&mut k, metric_label(d.device.as_str()).as_str());
        push_str(&mut k, ".children_count");
        k
    };
    v.push((key, u64_text(d.children_count as u64)));
    let key = {
        let mut k = String::new();
        push_str(&mut k, "disk.");
        push_str(&mut k, metric_label(d.device.as_str()).as_str());
        push_str(&mut k, ".holders_count");
        k
    };
    v.push((key, u64_text(d.holders_count as u64)));
    let key = {
        let mut k = String::new();
        push_str(&mut k, "disk.");
        push_str(&mut k, metric_label(d.device.as_str()).as_str());
        push_str(&mut k, ".slaves_count");
        k
    };
    v.push((key, u64_text(d.slaves_count as u64)));
    let key = {
        let mut k = String::new();
        push_str(&mut k, "disk.");
        push_str(&mut k, metric_label(d.device.as_str()).as_str());
        push_str(&mut k, ".flag.rotational");
        k
    };
    v.push((key, (if d.rotational { "1".to_owned() } else { "0".to_owned() })));
    let key = {
        let mut k = String::new();
        push_str(&mut k, "disk.");
        push_str(&mut k, metric_label(d.device.as_str()).as_str());
        push_str(&mut k, ".flag.removable");
        k
    };
    v.push((key, (if d.removable { "1".to_owned() } else { "0".to_owned() })));
    let key = {
        let mut k = String::new();
        push_str(&mut k, "disk.");
        push_str(&mut k, metric_label(d.device.as_str()).as_str());
        push_str(&mut k, ".flag.read_only");
        k
    };
    v.push((key, (if d.read_only { "1".to_owned() } else { "0".to_owned() })));
    let key = {
        let mut k = String::new();
        push_str(&mut k, "disk.");
        push_str(&mut k, metric_label(d.device.as_str()).as_str());
        push_str(&mut k, ".usage_pct");
        k
    };
    v.push((key, d.usage.clone()));
    let key = {
        let mut k = String::new();
        push_str(&mut k, "disk.");
        push_str(&mut k, metric_label(d.device.as_str()).as_str());
        push_str(&mut k, ".read_iops");
        k
    };
    v.push((key, u64_text(d.read_iops as u64)));
    let key = {
        let mut k = String::new();
        push_str(&mut k, "disk.");
        push_str(&mut k, metric_label(d.device.as_str()).as_str());
        push_str(&mut k, ".write_iops");
        k
    };
    v.push((key, u64_text(d.write_iops as u64)));
    let key = {
        let mut k = String::new();
        push_str(&mut k, "disk.");
        push_str(&mut k, metric_label(d.device.as_str()).as_str());
        push_str(&mut k, ".read_kb_sec");
        k
    };
    v.push((key, u64_text(d.read_kb_sec as u64)));
    let key = {
        let mut k = String::new();
        push_str(&mut k, "disk.");
        push_str(&mut k, metric_label(d.device.as_str()).as_str());
        push_str(&mut k, ".write_kb_sec");
        k
    };
    v.push((key, u64_text(d.write_kb_sec as u64)));
    let key = {
        let mut k = String::new();
        push_str(&mut k, "disk.");
        push_str(&mut k, metric_label(d.device.as_str()).as_str());
        push_str(&mut k, ".await_ms");
        k
    };
    v.push((key, d.await_ms.clone()));
    let key = {
        let mut k = String::new();
        push_str(&mut k, "disk.");
        push_str(&mut k, metric_label(d.device.as_str()).as_str());
        push_str(&mut k, ".service_time_ms");
        k
    };
    v.push((key, d.service_time_ms.clone()));
    let key = {
        let mut k = String::new();
        push_str(&mut k, "disk.");
        push_str(&mut k, metric_label(d.device.as_str()).as_str());
        push_str(&mut k, ".queue_depth");
        k
    };
    v.push((key, d.queue_depth.clone()));
    let key = {
        let mut k = String::new();
        push_str(&mut k, "disk.");
        push_str(&mut k, metric_label(d.device.as_str()).as_str());
        push_str(&mut k, ".util_pct");
        k
    };
    v.push((key, d.util.clone()));
    let key = {
        let mut k = String::new();
        push_str(&mut k, "disk.");
        push_str(&mut k, metric_label(d.device.as_str()).as_str());
        push_str(&mut k, ".read_merged_ops_sec");
        k
    };
    v.push((key, u64_text(d.read_merged_ops_sec as u64)));
    let key = {
        let mut k = String::new();
        push_str(&mut k, "disk.");
        push_str(&mut k, metric_label(d.device.as_str()).as_str());
        push_str(&mut k, ".write_merged_ops_sec");
        k
    };
    v.push((key, u64_text(d.write_merged_ops_sec as u64)));
    assert(row_views(v@) =~= disk_rows_spec(*d));
    v
}

/// The rows of the disks, disk after disk.
pub open spec fn disks_rows_spec(s: Seq<DiskFigures>) -> Seq<(Seq<char>, Seq<char>)>
    decreases s.len(),
{
    if s.len() == 0 {
        Seq::empty()
    } else {
        disks_rows_spec(s.drop_last()) + disk_rows_spec(s.last())
    }
}

fn disks_rows(s: &Vec<DiskFigures>) -> (r: Vec<(String, String)>)
    ensures
        row_views(r@) == disks_rows_spec(s@),
{
    let mut out: Vec<(String, String)> = Vec::new();
    let mut i: usize = 0;
    while i < s.len()
        invariant
            i <= s.len(),
            row_views(out@) == disks_rows_spec(s@.take(i as int)),
        decreases s.len() - i,
    {
        assert(s@.take(i + 1).drop_last() =~= s@.take(i as int));
        assert(s@.take(i + 1).last() == s@[i as int]);
        let mut more = disk_rows(&s[i]);
        let ghost before = out@;
        let ghost added = more@;
        out.append(&mut more);
        assert(row_views(out@) =~= row_views(before) + row_views(added));
        i += 1;
    }
    assert(s@.take(s.len() as int) =~= s@);
    out
}

/// The rows of one interface.
pub open spec fn net_rows_spec(n: NetFigures) -> Seq<(Seq<char>, Seq<char>)> {
    seq![("net."@ + metric_label_spec(n.interface@) + ".topology."@ + metric_label_spec(n.topology@), "1"@), ("net."@ + metric_label_spec(n.interface@) + ".family."@ + metric_label_spec(n.family@), "1"@), ("net."@ + metric_label_spec(n.interface@) + ".medium."@ + metric_label_spec(n.medium@), "1"@), ("net."@ + metric_label_spec(n.interface@) + ".flag.loopback"@, flag_spec(n.topology@ == "loopback"@)), ("net."@ + metric_label_spec(n.interface@) + ".flag.virtual"@, flag_spec(n.medium@ == "virtual"@ || n.medium@ == "software"@)), ("net."@ + metric_label_spec(n.interface@) + ".flag.wireless"@, flag_spec(n.family@ == "wireless"@)), ("net."@ + metric_label_spec(n.interface@) + ".flag.overlay"@, flag_spec(n.medium@ == "overlay"@)), ("net."@ + metric_label_spec(n.interface@) + ".rx_bytes_sec"@, decimal(n.rx_bytes_sec as nat))] + seq![("net."@ + metric_label_spec(n.interface@) + ".tx_bytes_sec"@, decimal(n.tx_bytes_sec as nat)), ("net."@ + metric_label_spec(n.interface@) + ".rx_packets_sec"@, decimal(n.rx_packets_sec as nat)), ("net."@ + metric_label_spec(n.interface@) + ".tx_packets_sec"@, decimal(n.tx_packets_sec as nat)), ("net."@ + metric_label_spec(n.interface@) + ".errors"@, decimal((n.rx_errors + n.tx_errors) as nat)), ("net."@ + metric_label_spec(n.interface@) + ".drops"@, decimal((n.rx_dropped + n.tx_dropped) as nat)), ("net."@ + metric_label_spec(n.interface@) + ".connections_total"@, decimal(n.connections_total as nat)), ("net."@ + metric_label_spec(n.interface@) + ".connections_established"@, decimal(n.connections_established as nat)), ("net."@ + metric_label_spec(n.interface@) + ".tcp_listen"@, decimal(n.tcp_listen as nat))] + seq![("net."@ + metric_label_spec(n.interface@) + ".tcp_time_wait"@, decimal(n.tcp_time_wait as nat)), ("net."@ + metric_label_spec(n.interface@) + ".tcp_close_wait"@, decimal(n.tcp_close_wait as nat)), ("net."@ + metric_label_spec(n.interface@) + ".tcp_syn_sent"@, decimal(n.tcp_syn_sent as nat)), ("net."@ + metric_label_spec(n.interface@) + ".tcp_syn_recv"@, decimal(n.tcp_syn_recv as nat)), ("net."@ + metric_label_spec(n.interface@) + ".tcp_fin_wait1"@, decimal(n.tcp_fin_wait1 as nat)), ("net."@ + metric_label_spec(n.interface@) + ".tcp_fin_wait2"@, decimal(n.tcp_fin_wait2 as nat)), ("net."@ + metric_label_spec(n.interface@) + ".tcp_last_ack"@, decimal(n.tcp_last_ack as nat)), ("net."@ + metric_label_spec(n.interface@) + ".tcp_closing"@, decimal(n.tcp_closing as nat))] + seq![("net."@ + metric_label_spec(n.interface@) + ".tcp_close"@, decimal(n.tcp_close as nat)), ("net."@ + metric_label_spec(n.interface@) + ".tcp_other"@, decimal(n.tcp_other as nat)), ("net."@ + metric_label_spec(n.interface@) + ".udp_total"@, decimal(n.udp_total as nat)), ("net."@ + metric_label_spec(n.interface@) + ".udp_established"@, decimal(n.udp_established as nat)), ("net."@ + metric_label_spec(n.interface@) + ".udp_close"@, decimal(n.udp_close as nat)), ("net."@ + metric_label_spec(n.interface@) + ".udp_other"@, decimal(n.udp_other as nat)), ("net."@ + metric_label_spec(n.interface@) + ".retrans_segs"@, decimal(n.retrans_segs as nat))]
}

#[verifier::rlimit(60)]
fn net_rows(n: &NetFigures) -> (r: Vec<(String, String)>)
    requires
        net_fits(*n),
    ensures
        row_views(r@) == net_rows_spec(*n),
{
    let mut v: Vec<(String, String)> = Vec::new();
    let key = {
        let mut k = String::new();
        push_str(&mut k, "net.");
        push_str(&mut k, metric_label(n.interface.as_str()).as_str());
        push_str(&mut k, ".topology.");
        push_str(&mut k, metric_label(n.topology.as_str()).as_str());
        k
    };
    v.push((key, "1".to_owned()));
    let key = {
        let mut k = String::new();
        push_str(&mut k, "net.");
        push_str(&mut k, metric_label(n.interface.as_str()).as_str());
        push_str(&mut k, ".family.");
        push_str(&mut k, metric_label(n.family.as_str()).as_str());
        k
    };
    v.push((key, "1".to_owned()));
    let key = {
        let mut k = String::new();
        push_str(&mut k, "net.");
        push_str(&mut k, metric_label(n.interface.as_str()).as_str());
        push_str(&mut k, ".medium.");
        push_str(&mut k, metric_label(n.medium.as_str()).as_str());
        k
    };
    v.push((key, "1".to_owned()));
    let key = {
        let mut k = String::new();
        push_str(&mut k, "net.");
        push_str(&mut k, metric_label(n.interface.as_str()).as_str());
        push_str(&mut k, ".flag.loopback");
        k
    };
    v.push((key, flag_text(str_eq(n.topology.as_str(), "loopback"))));
    let key = {
        let mut k = String::new();
        push_str(&mut k, "net.");
        push_str(&mut k, metric_label(n.interface.as_str()).as_str());
        push_str(&mut k, ".flag.virtual");
        k
    };
    v.push((key, flag_text(str_eq(n.medium.as_str(), "virtual") || str_eq(n.medium.as_str(), "software"))));
    let key = {
        let mut k = String::new();
        push_str(&mut k, "net.");
        push_str(&mut k, metric_label(n.interface.as_str()).as_str());
        push_str(&mut k, ".flag.wireless");
        k
    };
    v.push((key, flag_text(str_eq(n.family.as_str(), "wireless"))));
    let key = {
        let mut k = String::new();
        push_str(&mut k, "net.");
        push_str(&mut k, metric_label(n.interface.as_str()).as_str());
        push_str(&mut k, ".flag.overlay");
        k
    };
    v.push((key, flag_text(str_eq(n.medium.as_str(), "overlay"))));
    let key = {
        let mut k = String::new();
        push_str(&mut k, "net.");
        push_str(&mut k, metric_label(n.interface.as_str()).as_str());
        push_str(&mut k, ".rx_bytes_sec");
        k
    };
    v.push((key, u64_text(n.rx_bytes_sec as u64)));
    let key = {
        let mut k = String::new();
        push_str(&mut k, "net.");
        push_str(&mut k, metric_label(n.interface.as_str()).as_str());
        push_str(&mut k, ".tx_bytes_sec");
        k
    };
    v.push((key, u64_text(n.tx_bytes_sec as u64)));
    let key = {
        let mut k = String::new();
        push_str(&mut k, "net.");
        push_str(&mut k, metric_label(n.interface.as_str()).as_str());
        push_str(&mut k, ".rx_packets_sec");
        k
    };
    v.push((key, u64_text(n.rx_packets_sec as u64)));
    let key = {
        let mut k = String::new();
        push_str(&mut k, "net.");
        push_str(&mut k, metric_label(n.interface.as_str()).as_str());
        push_str(&mut k, ".tx_packets_sec");
        k
    };
    v.push((key, u64_text(n.tx_packets_sec as u64)));
    let key = {
        let mut k = String::new();
        push_str(&mut k, "net.");
        push_str(&mut k, metric_label(n.interface.as_str()).as_str());
        push_str(&mut k, ".errors");
        k
    };
    v.push((key, u64_text(n.rx_errors + n.tx_errors)));
    let key = {
        let mut k = String::new();
        push_str(&mut k, "net.");
        push_str(&mut k, metric_label(n.interface.as_str()).as_str());
        push_str(&mut k, ".drops");
        k
    };
    v.push((key, u64_text(n.rx_dropped + n.tx_dropped)));
    let key = {
        let mut k = String::new();
        push_str(&mut k, "net.");
        push_str(&mut k, metric_label(n.interface.as_str()).as_str());
        push_str(&mut k, ".connections_total");
        k
    };
    v.push((key, u64_text(n.connections_total as u64)));
    let key = {
        let mut k = String::new();
        push_str(&mut k, "net.");
        push_str(&mut k, metric_label(n.interface.as_str()).as_str());
        push_str(&mut k, ".connections_established");
        k
    };
    v.push((key, u64_text(n.connections_established as u64)));
    let key = {
        let mut k = String::new();
        push_str(&mut k, "net.");
        push_str(&mut k, metric_label(n.interface.as_str()).as_str());
        push_str(&mut k, ".tcp_listen");
        k
    };
    v.push((key, u64_text(n.tcp_listen as u64)));
    let key = {
        let mut k = String::new();
        push_str(&mut k, "net.");
        push_str(&mut k, metric_label(n.interface.as_str()).as_str());
        push_str(&mut k, ".tcp_time_wait");
        k
    };
    v.push((key, u64_text(n.tcp_time_wait as u64)));
    let key = {
        let mut k = String::new();
        push_str(&mut k, "net.");
        push_str(&mut k, metric_label(n.interface.as_str()).as_str());
        push_str(&mut k, ".tcp_close_wait");
        k
    };
    v.push((key, u64_text(n.tcp_close_wait as u64)));
    let key = {
        let mut k = String::new();
        push_str(&mut k, "net.");
        push_str(&mut k, metric_label(n.interface.as_str()).as_str());
        push_str(&mut k, ".tcp_syn_sent");
        k
    };
    v.push((key, u64_text(n.tcp_syn_sent as u64)));
    let key = {
        let mut k = String::new();
        push_str(&mut k, "net.");
        push_str(&mut k, metric_label(n.interface.as_str()).as_str());
        push_str(&mut k, ".tcp_syn_recv");
        k
    };
    v.push((key, u64_text(n.tcp_syn_recv as u64)));
    let key = {
        let mut k = String::new();
        push_str(&mut k, "net.");
        push_str(&mut k, metric_label(n.interface.as_str()).as_str());
        push_str(&mut k, ".tcp_fin_wait1");
        k
    };
    v.push((key, u64_text(n.tcp_fin_wait1 as u64)));
    let key = {
        let mut k = String::new();
        push_str(&mut k, "net.");
        push_str(&mut k, metric_label(n.interface.as_str()).as_str());
        push_str(&mut k, ".tcp_fin_wait2");
        k
    };
    v.push((key, u64_text(n.tcp_fin_wait2 as u64)));
    let key = {
        let mut k = String::new();
        push_str(&mut k, "net.");
        push_str(&mut k, metric_label(n.interface.as_str()).as_str());
        push_str(&mut k, ".tcp_last_ack");
        k
    };
    v.push((key, u64_text(n.tcp_last_ack as u64)));
    let key = {
        let mut k = String::new();
        push_str(&mut k, "net.");
        push_str(&mut k, metric_label(n.interface.as_str()).as_str());
        push_str(&mut k, ".tcp_closing");
        k
    };
    v.push((key, u64_text(n.tcp_closing as u64)));
    let key = {
        let mut k = String::new();
        push_str(&mut k, "net.");
        push_str(&mut k, metric_label(n.interface.as_str()).as_str());
        push_str(&mut k, ".tcp_close");
        k
    };
    v.push((key, u64_text(n.tcp_close as u64)));
    let key = {
        let mut k = String::new();
        push_str(&mut k, "net.");
        push_str(&mut k, metric_label(n.interface.as_str()).as_str());
        push_str(&mut k, ".tcp_other");
        k
    };
    v.push((key, u64_text(n.tcp_other as u64)));
    let key = {
        let mut k = String::new();
        push_str(&mut k, "net.");
        push_str(&mut k, metric_label(n.interface.as_str()).as_str());
        push_str(&mut k, ".udp_total");
        k
    };
    v.push((key, u64_text(n.udp_total as u64)));
    let key = {
        let mut k = String::new();
        push_str(&mut k, "net.");
        push_str(&mut k, metric_label(n.interface.as_str()).as_str());
        push_str(&mut k, ".udp_established");
        k
    };
    v.push((key, u64_text(n.udp_established as u64)));
    let key = {
        let mut k = String::new();
        push_str(&mut k, "net.");
        push_str(&mut k, metric_label(n.interface.as_str()).as_str());
        push_str(&mut k, ".udp_close");
        k
    };
    v.push((key, u64_text(n.udp_close as u64)));
    let key = {
        let mut k = String::new();
        push_str(&mut k, "net.");
        push_str(&mut k, metric_label(n.interface.as_str()).as_str());
        push_str(&mut k, ".udp_other");
        k
    };
    v.push((key, u64_text(n.udp_other as u64)));
    let key = {
        let mut k = String::new();
        push_str(&mut k, "net.");
        push_str(&mut k, metric_label(n.interface.as_str()).as_str());
        push_str(&mut k, ".retrans_segs");
        k
    };
    v.push((key, u64_text(n.retrans_segs as u64)));
    assert(row_views(v@) =~= net_rows_spec(*n));
    v
}

/// The rows of the interfaces, interface after interface.
pub open spec fn nets_rows_spec(s: Seq<NetFigures>) -> Seq<(Seq<char>, Seq<char>)>
    decreases s.len(),
{
    if s.len() == 0 {
        Seq::empty()
    } else {
        nets_rows_spec(s.drop_last()) + net_rows_spec(s.last())
    }
}

fn nets_rows(s: &Vec<NetFigures>) -> (r: Vec<(String, String)>)
    requires
        forall|i: int| 0 <= i < s.len() ==> net_fits(#[trigger] s@[i]),
    ensures
        row_views(r@) == nets_rows_spec(s@),
{
    let mut out: Vec<(String, String)> = Vec::new();
    let mut i: usize = 0;
    while i < s.len()
        invariant
            i <= s.len(),
            forall|i: int| 0 <= i < s.len() ==> net_fits(#[trigger] s@[i]),
            row_views(out@) == nets_rows_spec(s@.take(i as int)),
        decreases s.len() - i,
    {
        assert(s@.take(i + 1).drop_last() =~= s@.take(i as int));
        assert(s@.take(i + 1).last() == s@[i as int]);
        let mut more = net_rows(&s[i]);
        let ghost before = out@;
        let ghost added = more@;
        out.append(&mut more);
        assert(row_views(out@) =~= row_views(before) + row_views(added));
        i += 1;
    }
    assert(s@.take(s.len() as int) =~= s@);
    out
}

/// The rows of one process.
pub open spec fn process_rows_spec(p: ProcessFigures) -> Seq<(Seq<char>, Seq<char>)> {
    seq![("process."@ + decimal(p.pid as nat) + ".cpu_pct"@, p.cpu_pct@), ("process."@ + decimal(p.pid as nat) + ".rss_kb"@, decimal(p.rss_kb as nat)), ("process."@ + decimal(p.pid as nat) + ".threads"@, decimal(p.threads as nat)), ("process."@ + decimal(p.pid as nat) + ".fds"@, decimal(p.fds as nat)), ("process."@ + decimal(p.pid as nat) + ".io_read_bytes"@, decimal(p.io_read_bytes as nat)), ("process."@ + decimal(p.pid as nat) + ".io_write_bytes"@, decimal(p.io_write_bytes as nat))]
}

fn process_rows(p: &ProcessFigures) -> (r: Vec<(String, String)>)
    ensures
        row_views(r@) == process_rows_spec(*p),
{
    let mut v: Vec<(String, String)> = Vec::new();
    let key = {
        let mut k = String::new();
        push_str(&mut k, "process.");
        push_str(&mut k, u64_text(p.pid as u64).as_str());
        push_str(&mut k, ".cpu_pct");
        k
    };
    v.push((key, p.cpu_pct.clone()));
    let key = {
        let mut k = String::new();
        push_str(&mut k, "process.");
        push_str(&mut k, u64_text(p.pid as u64).as_str());
        push_str(&mut k, ".rss_kb");
        k
    };
    v.push((key, u64_text(p.rss_kb as u64)));
    let key = {
        let mut k = String::new();
        push_str(&mut k, "process.");
        push_str(&mut k, u64_text(p.pid as u64).as_str());
        push_str(&mut k, ".threads");
        k
    };
    v.push((key, u64_text(p.threads as u64)));
    let key = {
        let mut k = String::new();
        push_str(&mut k, "process.");
        push_str(&mut k, u64_text(p.pid as u64).as_str());
        push_str(&mut k, ".fds");
        k
    };
    v.push((key, u64_text(p.fds as u64)));
    let key = {
        let mut k = String::new();
        push_str(&mut k, "process.");
        push_str(&mut k, u64_text(p.pid as u64).as_str());
        push_str(&mut k, ".io_read_bytes");
        k
    };
    v.push((key, u64_text(p.io_read_bytes as u64)));
    let key = {
        let mut k = String::new();
        push_str(&mut k, "process.");
        push_str(&mut k, u64_text(p.pid as u64).as_str());
        push_str(&mut k, ".io_write_bytes");
        k
    };
    v.push((key, u64_text(p.io_write_bytes as u64)));
    assert(row_views(v@) =~= process_rows_spec(*p));
    v
}

/// The rows of the processes, in order.
pub open spec fn processes_rows_spec(s: Seq<ProcessFigures>) -> Seq<(Seq<char>, Seq<char>)>
    decreases s.len(),
{
    if s.len() == 0 {
        Seq::empty()
    } else {
        processes_rows_spec(s.drop_last()) + process_rows_spec(s.last())
    }
}

fn processes_rows(s: &Vec<ProcessFigures>) -> (r: Vec<(String, String)>)
    ensures
        row_views(r@) == processes_rows_spec(s@),
{
    let mut out: Vec<(String, String)> = Vec::new();
    let mut i: usize = 0;
    while i < s.len()
        invariant
            i <= s.len(),
            row_views(out@) == processes_rows_spec(s@.take(i as int)),
        decreases s.len() - i,
    {
        assert(s@.take(i + 1).drop_last() =~= s@.take(i as int));
        assert(s@.take(i + 1).last() == s@[i as int]);
        let mut more = process_rows(&s[i]);
        let ghost before = out@;
        let ghost added = more@;
        out.append(&mut more);
        assert(row_views(out@) =~= row_views(before) + row_views(added));
        i += 1;
    }
    assert(s@.take(s.len() as int) =~= s@);
    out
}

/// The host rows.
pub open spec fn system_rows_spec(s: SystemFigures) -> Seq<(Seq<char>, Seq<char>)> {
    seq![("system.uptime_seconds"@, decimal(s.uptime_seconds as nat)), ("system.cpu_count"@, decimal(s.cpu_count as nat))]
}

fn system_rows(s: &SystemFigures) -> (r: Vec<(String, String)>)
    ensures
        row_views(r@) == system_rows_spec(*s),
{
    let mut v: Vec<(String, String)> = Vec::new();
    let key = "system.uptime_seconds".to_owned();
    v.push((key, u64_text(s.uptime_seconds as u64)));
    let key = "system.cpu_count".to_owned();
    v.push((key, u64_text(s.cpu_count as u64)));
    assert(row_views(v@) =~= system_rows_spec(*s));
    v
}

/// The cgroup rows; the memory limit only when there is one.
pub open spec fn cgroup_rows_spec(g: CgroupFigures) -> Seq<(Seq<char>, Seq<char>)> {
    seq![("linux.cgroup.memory_current_bytes"@, decimal(g.memory_current_bytes as nat))]
        + (if g.memory_max_bytes is Some { seq![("linux.cgroup.memory_max_bytes"@, decimal(g.memory_max_bytes->0 as nat))] } else { Seq::empty() })
        + seq![("linux.cgroup.memory_usage_pct"@, g.usage@), ("linux.cgroup.pids_current"@, decimal(g.pids_current as nat)), ("linux.cgroup.cpu_usage_usec"@, decimal(g.cpu_usage_usec as nat)), ("linux.cgroup.cpu_nr_throttled"@, decimal(g.cpu_nr_throttled as nat)), ("linux.cgroup.cpu_throttled_usec"@, decimal(g.cpu_throttled_usec as nat))]
}

fn cgroup_rows(g: &CgroupFigures) -> (r: Vec<(String, String)>)
    ensures
        row_views(r@) == cgroup_rows_spec(*g),
{
    let mut v: Vec<(String, String)> = Vec::new();
    let key = "linux.cgroup.memory_current_bytes".to_owned();
    v.push((key, u64_text(g.memory_current_bytes as u64)));
    if g.memory_max_bytes.is_some() {
        let key = "linux.cgroup.memory_max_bytes".to_owned();
        v.push((key, u64_text(match g.memory_max_bytes { Some(m) => m, None => 0 })));
    }
    let key = "linux.cgroup.memory_usage_pct".to_owned();
    v.push((key, g.usage.clone()));
    let key = "linux.cgroup.pids_current".to_owned();
    v.push((key, u64_text(g.pids_current as u64)));
    let key = "linux.cgroup.cpu_usage_usec".to_owned();
    v.push((key, u64_text(g.cpu_usage_usec as u64)));
    let key = "linux.cgroup.cpu_nr_throttled".to_owned();
    v.push((key, u64_text(g.cpu_nr_throttled as u64)));
    let key = "linux.cgroup.cpu_throttled_usec".to_owned();
    v.push((key, u64_text(g.cpu_throttled_usec as u64)));
    assert(row_views(v@) =~= cgroup_rows_spec(*g));
    v
}

/// The rows of one pressure-stall line.
pub open spec fn pressure_rows_spec(p: PressureFigures) -> Seq<(Seq<char>, Seq<char>)> {
    seq![("linux.psi."@ + p.resource@ + "."@ + p.scope@ + ".avg10"@, p.avg10@), ("linux.psi."@ + p.resource@ + "."@ + p.scope@ + ".avg60"@, p.avg60@), ("linux.psi."@ + p.resource@ + "."@ + p.scope@ + ".avg300"@, p.avg300@), ("linux.psi."@ + p.resource@ + "."@ + p.scope@ + ".total"@, decimal(p.total as nat))]
}

fn pressure_rows(p: &PressureFigures) -> (r: Vec<(String, String)>)
    ensures
        row_views(r@) == pressure_rows_spec(*p),
{
    let mut v: Vec<(String, String)> = Vec::new();
    let key = {
        let mut k = String::new();
        push_str(&mut k, "linux.psi.");
        push_str(&mut k, p.resource.as_str());
        push_str(&mut k, ".");
        push_str(&mut k, p.scope.as_str());
        push_str(&mut k, ".avg10");
        k
    };
    v.push((key, p.avg10.clone()));
    let key = {
        let mut k = String::new();
        push_str(&mut k, "linux.psi.");
        push_str(&mut k, p.resource.as_str());
        push_str(&mut k, ".");
        push_str(&mut k, p.scope.as_str());
        push_str(&mut k, ".avg60");
        k
    };
    v.push((key, p.avg60.clone()));
    let key = {
        let mut k = String::new();
        push_str(&mut k, "linux.psi.");
        push_str(&mut k, p.resource.as_str());
        push_str(&mut k, ".");
        push_str(&mut k, p.scope.as_str());
        push_str(&mut k, ".avg300");
        k
    };
    v.push((key, p.avg300.clone()));
    let key = {
        let mut k = String::new();
        push_str(&mut k, "linux.psi.");
        push_str(&mut k, p.resource.as_str());
        push_str(&mut k, ".");
        push_str(&mut k, p.scope.as_str());
        push_str(&mut k, ".total");
        k
    };
    v.push((key, u64_text(p.total as u64)));
    assert(row_views(v@) =~= pressure_rows_spec(*p));
    v
}

/// The pressure-stall rows, in order.
pub open spec fn pressures_rows_spec(s: Seq<PressureFigures>) -> Seq<(Seq<char>, Seq<char>)>
    decreases s.len(),
{
    if s.len() == 0 {
        Seq::empty()
    } else {
        pressures_rows_spec(s.drop_last()) + pressure_rows_spec(s.last())
    }
}

fn pressures_rows(s: &Vec<PressureFigures>) -> (r: Vec<(String, String)>)
    ensures
        row_views(r@) == pressures_rows_spec(s@),
{
    let mut out: Vec<(String, String)> = Vec::new();
    let mut i: usize = 0;
    while i < s.len()
        invariant
            i <= s.len(),
            row_views(out@) == pressures_rows_spec(s@.take(i as int)),
        decreases s.len() - i,
    {
        assert(s@.take(i + 1).drop_last() =~= s@.take(i as int));
        assert(s@.take(i + 1).last() == s@[i as int]);
        let mut more = pressure_rows(&s[i]);
        let ghost before = out@;
        let ghost added = more@;
        out.append(&mut more);
        assert(row_views(out@) =~= row_views(before) + row_views(added));
        i += 1;
    }
    assert(s@.take(s.len() as int) =~= s@);
    out
}

/// The pipeline figures and alert counts.
pub open spec fn computed_rows_spec(c: ComputedFigures) -> Seq<(Seq<char>, Seq<char>)> {
    seq![("computed.cpu_trend_p50"@, c.cpu_trend_p50@), ("computed.cpu_trend_p95"@, c.cpu_trend_p95@), ("computed.memory_pressure"@, c.memory_pressure@), ("computed.alert_count"@, decimal(c.alerts_total as nat)), ("computed.alerts_info"@, decimal(c.alerts_info as nat)), ("computed.alerts_warning"@, decimal(c.alerts_warning as nat)), ("computed.alerts_critical"@, decimal(c.alerts_critical as nat))]
}

fn computed_rows(c: &ComputedFigures) -> (r: Vec<(String, String)>)
    ensures
        row_views(r@) == computed_rows_spec(*c),
{
    let mut v: Vec<(String, String)> = Vec::new();
    let key = "computed.cpu_trend_p50".to_owned();
    v.push((key, c.cpu_trend_p50.clone()));
    let key = "computed.cpu_trend_p95".to_owned();
    v.push((key, c.cpu_trend_p95.clone()));
    let key = "computed.memory_pressure".to_owned();
    v.push((key, c.memory_pressure.clone()));
    let key = "computed.alert_count".to_owned();
    v.push((key, u64_text(c.alerts_total as u64)));
    let key = "computed.alerts_info".to_owned();
    v.push((key, u64_text(c.alerts_info as u64)));
    let key = "computed.alerts_warning".to_owned();
    v.push((key, u64_text(c.alerts_warning as u64)));
    let key = "computed.alerts_critical".to_owned();
    v.push((key, u64_text(c.alerts_critical as u64)));
    assert(row_views(v@) =~= computed_rows_spec(*c));
    v
}

// ─── Whole exports ──────────────────────────────────────────────────────────
pub open spec fn opt_gauge(
    name: &'static str,
    help: &'static str,
    v: Option<u64>,
) -> Seq<PieceView> {
    match v {
        Some(x) => seq![hdr_spec(name, help), line_spec(name, Seq::empty(), decimal(x as nat))],
        None => Seq::empty(),
    }
}

/// The cgroup families; the memory and pid limits only when there is one.
pub open spec fn cgroup_pieces_spec(g: CgroupFigures) -> Seq<PieceView> {
    cgroup_head_pieces_spec(g) + opt_gauge(
        "pulsar_linux_cgroup_memory_max_bytes",
        "Maximum cgroup memory in bytes",
        g.memory_max_bytes,
    ) + cgroup_mid_pieces_spec(g) + opt_gauge(
        "pulsar_linux_cgroup_pids_max",
        "Maximum cgroup pid limit",
        g.pids_max,
    ) + cgroup_tail_pieces_spec(g)
}

proof fn lemma_pieces_text_add(a: Seq<PieceView>, b: Seq<PieceView>)
    ensures
        pieces_text(a + b) == pieces_text(a) + pieces_text(b),
    decreases b.len(),
{
    if b.len() == 0 {
        assert(a + b =~= a);
        assert(pieces_text(b) =~= Seq::<char>::empty());
        assert(pieces_text(a) + pieces_text(b) =~= pieces_text(a));
    } else {
        lemma_pieces_text_add(a, b.drop_last());
        assert((a + b).drop_last() =~= a + b.drop_last());
        assert((a + b).last() == b.last());
        assert(pieces_text(a + b) =~= pieces_text(a) + pieces_text(b));
    }
}

/// The text of pieces holds the text of each piece, between those of the
/// pieces before and after it.
proof fn lemma_piece_in_text(s: Seq<PieceView>, j: int)
    requires
        0 <= j < s.len(),
    ensures
        pieces_text(s) == pieces_text(s.take(j)) + piece_text(s[j]) + pieces_text(s.skip(j + 1)),
{
    let x = seq![s[j]];
    assert(s =~= s.take(j) + x + s.skip(j + 1));
    lemma_pieces_text_add(s.take(j) + x, s.skip(j + 1));
    lemma_pieces_text_add(s.take(j), x);
    assert(x.drop_last() =~= Seq::<PieceView>::empty());
    assert(x.last() == s[j]);
    assert(pieces_text(Seq::<PieceView>::empty()) =~= Seq::<char>::empty());
    assert(pieces_text(x) =~= piece_text(s[j]));
}

/// The sample line of a gauge without labels.
pub open spec fn plain_line(name: &'static str, value: Seq<char>) -> Seq<char> {
    name@ + seq![' '] + value + seq!['\n']
}

/// `line` is one of the lines of `text`.
pub open spec fn has_line(text: Seq<char>, line: Seq<char>) -> bool {
    exists|a: Seq<char>, b: Seq<char>| text == a + line + b
}

proof fn lemma_memory_line(f: ExportFigures, idx: int, name: &'static str, value: Seq<char>)
    requires
        f.memory is Some,
        0 <= idx < memory_pieces_spec(f.memory->0).len(),
        memory_pieces_spec(f.memory->0)[idx] == line_spec(name, Seq::empty(), value),
    ensures
        has_line(prometheus_spec(f), plain_line(name, value)),
{
    let p = prometheus_pieces_spec(f);
    let j = cpu_part(f).len() + idx;
    assert(p[j] == memory_pieces_spec(f.memory->0)[idx]);
    lemma_piece_in_text(p, j);
    let a = pieces_text(p.take(j));
    let b = pieces_text(p.skip(j + 1));
    assert(crate::exporters::labels_spec(Seq::empty()) =~= Seq::<char>::empty());
    assert(prometheus_spec(f) =~= a + plain_line(name, value) + b);
}

/// The memory figures in bytes are their kB figures times 1024: the export
/// holds the line of each with that value.
pub proof fn law_memory_bytes_are_kilobytes_times_1024(f: ExportFigures)
    requires
        f.memory is Some,
    ensures
        ({
            let m = f.memory->0;
            &&& has_line(prometheus_spec(f), plain_line("pulsar_memory_total_bytes", decimal(m.total_kb as nat * 1024)))
            &&& has_line(prometheus_spec(f), plain_line("pulsar_memory_used_bytes", decimal(m.used_kb as nat * 1024)))
            &&& has_line(
                prometheus_spec(f),
                plain_line("pulsar_memory_available_bytes", decimal(m.available_kb as nat * 1024)),
            )
            &&& has_line(prometheus_spec(f), plain_line("pulsar_memory_cached_bytes", decimal(m.cached_kb as nat * 1024)))
            &&& has_line(
                prometheus_spec(f),
                plain_line("pulsar_memory_buffers_bytes", decimal(m.buffers_kb as nat * 1024)),
            )
            &&& has_line(prometheus_spec(f), plain_line("pulsar_memory_dirty_bytes", decimal(m.dirty_kb as nat * 1024)))
            &&& has_line(prometheus_spec(f), plain_line("pulsar_swap_used_bytes", decimal(m.swap_used_kb as nat * 1024)))
        }),
{
    let m = f.memory->0;
    lemma_memory_line(f, 1, "pulsar_memory_total_bytes", decimal(m.total_kb as nat * 1024));
    lemma_memory_line(f, 3, "pulsar_memory_used_bytes", decimal(m.used_kb as nat * 1024));
    lemma_memory_line(f, 7, "pulsar_memory_available_bytes", decimal(m.available_kb as nat * 1024));
    lemma_memory_line(f, 9, "pulsar_memory_cached_bytes", decimal(m.cached_kb as nat * 1024));
    lemma_memory_line(f, 11, "pulsar_memory_buffers_bytes", decimal(m.buffers_kb as nat * 1024));
    lemma_memory_line(f, 13, "pulsar_memory_dirty_bytes", decimal(m.dirty_kb as nat * 1024));
    lemma_memory_line(f, 15, "pulsar_swap_used_bytes", decimal(m.swap_used_kb as nat * 1024));
}

/// The pieces of the Prometheus export: CPU, memory, disks (all headers,
/// then each disk's lines), interfaces (likewise), host, cgroup, pressure
/// stalls (likewise), and the pipeline figures and alert counts; a missing
/// part is left out.
pub open spec fn prometheus_pieces_spec(f: ExportFigures) -> Seq<PieceView> {
    cpu_part(f) + memory_part(f) + (if f.disks@.len() > 0 {
        disk_headers_spec(f)
    } else {
        Seq::empty()
    }) + disks_pieces_spec(f.disks@) + (if f.networks@.len() > 0 {
        net_headers_spec(f)
    } else {
        Seq::empty()
    }) + nets_pieces_spec(f.networks@) + system_part(f) + cgroup_part(f) + (if f.psi@.len() > 0 {
        pressure_headers_spec()
    } else {
        Seq::empty()
    }) + pressures_pieces_spec(f.psi@) + computed_pieces_spec(f.computed)
}

pub open spec fn cpu_part(f: ExportFigures) -> Seq<PieceView> {
    match f.cpu {
        Some(c) => cpu_pieces_spec(c) + cores_pieces_spec(c.cores@),
        None => Seq::empty(),
    }
}

pub open spec fn memory_part(f: ExportFigures) -> Seq<PieceView> {
    match f.memory {
        Some(m) => memory_pieces_spec(m),
        None => Seq::empty(),
    }
}

pub open spec fn system_part(f: ExportFigures) -> Seq<PieceView> {
    match f.system {
        Some(s) => system_pieces_spec(s),
        None => Seq::empty(),
    }
}

pub open spec fn cgroup_part(f: ExportFigures) -> Seq<PieceView> {
    match f.cgroup {
        Some(g) => cgroup_pieces_spec(g),
        None => Seq::empty(),
    }
}

/// The Prometheus text of a snapshot.
pub open spec fn prometheus_spec(f: ExportFigures) -> Seq<char> {
    pieces_text(prometheus_pieces_spec(f))
}

fn append_pieces(out: &mut Vec<Piece>, more: Vec<Piece>)
    ensures
        piece_views(final(out)@) == piece_views(old(out)@) + piece_views(more@),
{
    let mut more = more;
    let ghost a = out@;
    let ghost b = more@;
    out.append(&mut more);
    assert(piece_views(out@) =~= piece_views(a) + piece_views(b));
}

fn opt_gauge_pieces(name: &'static str, help: &'static str, v: Option<u64>) -> (r: Vec<Piece>)
    ensures
        piece_views(r@) == opt_gauge(name, help, v),
{
    let mut r: Vec<Piece> = Vec::new();
    match v {
        Some(x) => {
            r.push(header(name, help));
            let labels: Vec<(&'static str, String)> = Vec::new();
            assert(label_views(labels@) =~= Seq::<(Seq<char>, Seq<char>)>::empty());
            r.push(line(name, labels, u64_text(x)));
        },
        None => {},
    }
    assert(piece_views(r@) =~= opt_gauge(name, help, v));
    r
}

fn cgroup_pieces(g: &CgroupFigures) -> (r: Vec<Piece>)
    ensures
        piece_views(r@) == cgroup_pieces_spec(*g),
{
    let mut r = cgroup_head_pieces(g);
    append_pieces(
        &mut r,
        opt_gauge_pieces(
            "pulsar_linux_cgroup_memory_max_bytes",
            "Maximum cgroup memory in bytes",
            g.memory_max_bytes,
        ),
    );
    append_pieces(&mut r, cgroup_mid_pieces(g));
    append_pieces(
        &mut r,
        opt_gauge_pieces("pulsar_linux_cgroup_pids_max", "Maximum cgroup pid limit", g.pids_max),
    );
    append_pieces(&mut r, cgroup_tail_pieces(g));
    r
}

/// The pieces of the Prometheus export, in order.
pub fn prometheus_pieces(f: &ExportFigures) -> (r: Vec<Piece>)
    requires
        export_fits(*f),
    ensures
        piece_views(r@) == prometheus_pieces_spec(*f),
{
    let mut out: Vec<Piece> = Vec::new();
    let ghost s0 = Seq::<PieceView>::empty();
    let ghost s1 = s0 + cpu_part(*f);
    match &f.cpu {
        Some(c) => {
            append_pieces(&mut out, cpu_pieces(c));
            append_pieces(&mut out, cores_pieces(&c.cores));
        },
        None => {},
    }
    assert(piece_views(out@) =~= s1);
    let ghost s2 = s1 + memory_part(*f);
    match &f.memory {
        Some(m) => append_pieces(&mut out, memory_pieces(m)),
        None => {},
    }
    assert(piece_views(out@) =~= s2);
    let ghost s3 = s2 + (if f.disks@.len() > 0 {
        disk_headers_spec(*f)
    } else {
        Seq::empty()
    }) + disks_pieces_spec(f.disks@);
    if f.disks.len() > 0 {
        append_pieces(&mut out, disk_headers(f));
    }
    append_pieces(&mut out, disks_pieces(&f.disks));
    assert(piece_views(out@) =~= s3);
    let ghost s4 = s3 + (if f.networks@.len() > 0 {
        net_headers_spec(*f)
    } else {
        Seq::empty()
    }) + nets_pieces_spec(f.networks@);
    if f.networks.len() > 0 {
        append_pieces(&mut out, net_headers(f));
    }
    append_pieces(&mut out, nets_pieces(&f.networks));
    assert(piece_views(out@) =~= s4);
    let ghost s5 = s4 + system_part(*f);
    match &f.system {
        Some(s) => append_pieces(&mut out, system_pieces(s)),
        None => {},
    }
    assert(piece_views(out@) =~= s5);
    let ghost s6 = s5 + cgroup_part(*f);
    match &f.cgroup {
        Some(g) => append_pieces(&mut out, cgroup_pieces(g)),
        None => {},
    }
    assert(piece_views(out@) =~= s6);
    let ghost s7 = s6 + (if f.psi@.len() > 0 {
        pressure_headers_spec()
    } else {
        Seq::empty()
    }) + pressures_pieces_spec(f.psi@);
    if f.psi.len() > 0 {
        append_pieces(&mut out, pressure_headers());
    }
    append_pieces(&mut out, pressures_pieces(&f.psi));
    assert(piece_views(out@) =~= s7);
    append_pieces(&mut out, computed_pieces(&f.computed));
    assert(piece_views(out@) =~= prometheus_pieces_spec(*f));
    out
}

/// The Prometheus text of a snapshot's figures.
pub fn prometheus_export(f: &ExportFigures) -> (r: String)
    requires
        export_fits(*f),
    ensures
        r@ == prometheus_spec(*f),
{
    render_pieces(&prometheus_pieces(f))
}

/// The CSV rows of a snapshot: CPU and cores, memory, disks, interfaces,
/// processes, host, cgroup, pressure stalls, and the pipeline figures and
/// alert counts; a missing part is left out.
pub open spec fn csv_list_spec(f: ExportFigures) -> Seq<(Seq<char>, Seq<char>)> {
    cpu_row_part(f) + memory_row_part(f) + disks_rows_spec(f.disks@) + nets_rows_spec(f.networks@)
        + processes_rows_spec(f.processes@) + system_row_part(f) + cgroup_row_part(f)
        + pressures_rows_spec(f.psi@) + computed_rows_spec(f.computed)
}

pub open spec fn cpu_row_part(f: ExportFigures) -> Seq<(Seq<char>, Seq<char>)> {
    match f.cpu {
        Some(c) => cpu_rows_spec(c) + cores_rows_spec(c.cores@),
        None => Seq::empty(),
    }
}

pub open spec fn memory_row_part(f: ExportFigures) -> Seq<(Seq<char>, Seq<char>)> {
    match f.memory {
        Some(m) => memory_rows_spec(m),
        None => Seq::empty(),
    }
}

pub open spec fn system_row_part(f: ExportFigures) -> Seq<(Seq<char>, Seq<char>)> {
    match f.system {
        Some(s) => system_rows_spec(s),
        None => Seq::empty(),
    }
}

pub open spec fn cgroup_row_part(f: ExportFigures) -> Seq<(Seq<char>, Seq<char>)> {
    match f.cgroup {
        Some(g) => cgroup_rows_spec(g),
        None => Seq::empty(),
    }
}

/// The CSV text of a snapshot.
pub open spec fn csv_spec(timestamp: i64, f: ExportFigures) -> Seq<char> {
    "timestamp,metric,value\n"@ + csv_rows_spec(timestamp as int, csv_list_spec(f))
}

fn append_rows(out: &mut Vec<(String, String)>, more: Vec<(String, String)>)
    ensures
        row_views(final(out)@) == row_views(old(out)@) + row_views(more@),
{
    let mut more = more;
    let ghost a = out@;
    let ghost b = more@;
    out.append(&mut more);
    assert(row_views(out@) =~= row_views(a) + row_views(b));
}

/// The CSV rows of a snapshot, in order.
pub fn csv_list(f: &ExportFigures) -> (r: Vec<(String, String)>)
    requires
        nets_fit(f.networks@),
    ensures
        row_views(r@) == csv_list_spec(*f),
{
    let mut out: Vec<(String, String)> = Vec::new();
    let ghost s1 = cpu_row_part(*f);
    match &f.cpu {
        Some(c) => {
            append_rows(&mut out, cpu_rows(c));
            append_rows(&mut out, cores_rows(&c.cores));
        },
        None => {},
    }
    assert(row_views(out@) =~= s1);
    let ghost s2 = s1 + memory_row_part(*f);
    match &f.memory {
        Some(m) => append_rows(&mut out, memory_rows(m)),
        None => {},
    }
    assert(row_views(out@) =~= s2);
    append_rows(&mut out, disks_rows(&f.disks));
    append_rows(&mut out, nets_rows(&f.networks));
    append_rows(&mut out, processes_rows(&f.processes));
    let ghost s3 = s2 + disks_rows_spec(f.disks@) + nets_rows_spec(f.networks@)
        + processes_rows_spec(f.processes@);
    assert(row_views(out@) =~= s3);
    let ghost s4 = s3 + system_row_part(*f);
    match &f.system {
        Some(s) => append_rows(&mut out, system_rows(s)),
        None => {},
    }
    assert(row_views(out@) =~= s4);
    let ghost s5 = s4 + cgroup_row_part(*f);
    match &f.cgroup {
        Some(g) => append_rows(&mut out, cgroup_rows(g)),
        None => {},
    }
    assert(row_views(out@) =~= s5);
    append_rows(&mut out, pressures_rows(&f.psi));
    append_rows(&mut out, computed_rows(&f.computed));
    assert(row_views(out@) =~= csv_list_spec(*f));
    out
}

/// The CSV text of a snapshot's figures, stamped with `timestamp`.
pub fn csv_export(timestamp: i64, f: &ExportFigures) -> (r: String)
    requires
        nets_fit(f.networks@),
    ensures
        r@ == csv_spec(timestamp, *f),
{
    csv_text(timestamp, &csv_list(f))
}

} // verus!
