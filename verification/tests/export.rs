use pulsar::export::{
    csv_export, prometheus_export, CgroupFigures, ComputedFigures, CoreFigure, CpuFigures,
    DiskFigures, ExportFigures, MemoryFigures, NetFigures, PressureFigures, ProcessFigures,
    SystemFigures,
};

fn t(s: &str) -> String {
    s.to_string()
}

fn computed() -> ComputedFigures {
    ComputedFigures {
        cpu_trend_p50: t("10.00"),
        cpu_trend_p95: t("20.00"),
        memory_pressure: t("0.5000"),
        alerts_total: 2,
        alerts_info: 0,
        alerts_warning: 1,
        alerts_critical: 1,
    }
}

fn empty() -> ExportFigures {
    ExportFigures {
        cpu: None,
        memory: None,
        disks: vec![],
        networks: vec![],
        processes: vec![],
        system: None,
        cgroup: None,
        psi: vec![],
        computed: computed(),
    }
}

fn disk() -> DiskFigures {
    DiskFigures {
        device: t("sda"),
        mount_point: t("/"),
        structure: t("whole"),
        protocol: t("sata"),
        media: t("ssd"),
        volume_kind: t(""),
        filesystem_family: t("ext"),
        scheduler: t(""),
        stack_depth: 1,
        children_count: 2,
        holders_count: 0,
        slaves_count: 0,
        rotational: false,
        removable: true,
        read_only: false,
        used_bytes: t("100"),
        free_bytes: t("900"),
        usage: t("10.00"),
        read_iops: 5,
        write_iops: 6,
        read_kb_sec: 7,
        write_kb_sec: 8,
        await_ms: t("1.50"),
        service_time_ms: t("0.50"),
        queue_depth: t("0.1000"),
        util: t("3.00"),
        read_merged_ops_sec: 1,
        write_merged_ops_sec: 2,
    }
}

fn net() -> NetFigures {
    NetFigures {
        interface: t("eth0"),
        topology: t("loopback"),
        family: t("ethernet"),
        medium: t("software"),
        rx_bytes_sec: 1,
        tx_bytes_sec: 2,
        rx_packets_sec: 3,
        tx_packets_sec: 4,
        rx_errors: 5,
        tx_errors: 6,
        rx_dropped: 7,
        tx_dropped: 8,
        connections_total: 9,
        connections_established: 10,
        tcp_syn_sent: 0,
        tcp_syn_recv: 0,
        tcp_fin_wait1: 0,
        tcp_fin_wait2: 0,
        tcp_time_wait: 0,
        tcp_close: 0,
        tcp_close_wait: 0,
        tcp_last_ack: 0,
        tcp_listen: 11,
        tcp_closing: 0,
        tcp_other: 0,
        udp_total: 12,
        udp_established: 0,
        udp_close: 0,
        udp_other: 0,
        retrans_segs: 13,
    }
}

fn full() -> ExportFigures {
    let mut f = empty();
    f.cpu = Some(CpuFigures {
        usage: t("12.50"),
        load_1: t("0.10"),
        load_5: t("0.20"),
        load_15: t("0.30"),
        iowait: t("1.00"),
        steal: t("0.00"),
        mode_user: t("8.00"),
        mode_nice: t("0.00"),
        mode_system: t("4.50"),
        mode_idle: t("86.50"),
        mode_iowait: t("1.00"),
        mode_irq: t("0.00"),
        mode_softirq: t("0.00"),
        mode_steal: t("0.00"),
        context_switches: 1000,
        interrupts: 2000,
        cores: vec![CoreFigure { id: 0, usage: t("20.00") }, CoreFigure { id: 1, usage: t("5.00") }],
    });
    f.memory = Some(MemoryFigures {
        total_kb: 2,
        used_kb: 1,
        usage: t("50.00"),
        available_kb: 1,
        cached_kb: 0,
        buffers_kb: 0,
        swap_used_kb: 0,
        dirty_kb: 0,
        vm_pgfault: 3,
        vm_pgmajfault: 0,
        vm_pgpgin: 0,
        vm_pgpgout: 0,
        vm_pswpin: 0,
        vm_pswpout: 0,
        vm_pgscan: 0,
        vm_pgsteal: 0,
    });
    f.disks = vec![disk()];
    f.networks = vec![net()];
    f.processes = vec![ProcessFigures {
        pid: 42,
        cpu_pct: t("1.25"),
        rss_kb: 100,
        threads: 3,
        fds: 4,
        io_read_bytes: 5,
        io_write_bytes: 6,
    }];
    f.system = Some(SystemFigures {
        hostname: t("host\"1"),
        os_name: t("linux"),
        os_version: t("Debian"),
        kernel_version: t("6.1"),
        architecture: t("x86_64"),
        uptime_seconds: 60,
        cpu_count: 2,
    });
    f.cgroup = Some(CgroupFigures {
        version: 2,
        path: t("/user.slice"),
        memory_current_bytes: 10,
        memory_max_bytes: Some(100),
        usage: t("10.00"),
        pids_current: 3,
        pids_max: None,
        cpu_usage_usec: 1,
        cpu_nr_throttled: 2,
        cpu_throttled_usec: 3,
    });
    f.psi = vec![PressureFigures {
        resource: t("cpu"),
        scope: t("some"),
        avg10: t("0.50"),
        avg60: t("0.25"),
        avg300: t("0.10"),
        total: 77,
    }];
    f
}

const COMPUTED_PROM: &str = "# HELP pulsar_computed_cpu_trend_p50 CPU usage rolling p50\n\
# TYPE pulsar_computed_cpu_trend_p50 gauge\n\
pulsar_computed_cpu_trend_p50 10.00\n\
# HELP pulsar_computed_cpu_trend_p95 CPU usage rolling p95\n\
# TYPE pulsar_computed_cpu_trend_p95 gauge\n\
pulsar_computed_cpu_trend_p95 20.00\n\
# HELP pulsar_computed_memory_pressure Memory pressure score\n\
# TYPE pulsar_computed_memory_pressure gauge\n\
pulsar_computed_memory_pressure 0.5000\n\
# HELP pulsar_alerts_total Active alert count\n\
# TYPE pulsar_alerts_total gauge\n\
pulsar_alerts_total 2\n\
# HELP pulsar_alerts_info Active info alert count\n\
# TYPE pulsar_alerts_info gauge\n\
pulsar_alerts_info 0\n\
# HELP pulsar_alerts_warning Active warning alert count\n\
# TYPE pulsar_alerts_warning gauge\n\
pulsar_alerts_warning 1\n\
# HELP pulsar_alerts_critical Active critical alert count\n\
# TYPE pulsar_alerts_critical gauge\n\
pulsar_alerts_critical 1\n";

#[test]
fn empty_snapshot_exports_only_computed_figures() {
    assert_eq!(prometheus_export(&empty()), COMPUTED_PROM);
    assert_eq!(
        csv_export(9, &empty()),
        "timestamp,metric,value\n9,computed.cpu_trend_p50,10.00\n9,computed.cpu_trend_p95,20.00\n\
         9,computed.memory_pressure,0.5000\n9,computed.alert_count,2\n9,computed.alerts_info,0\n\
         9,computed.alerts_warning,1\n9,computed.alerts_critical,1\n"
    );
}

fn pos(text: &str, needle: &str) -> usize {
    text.find(needle).unwrap_or_else(|| panic!("missing: {needle}"))
}

#[test]
fn prometheus_export_keeps_the_section_order() {
    let p = prometheus_export(&full());
    assert!(p.ends_with(COMPUTED_PROM));
    assert!(p.contains("pulsar_cpu_mode_percent{mode=\"system\"} 4.50\n"));
    assert!(p.contains("pulsar_cpu_core_usage_percent{core=\"1\"} 5.00\n"));
    assert!(p.contains("pulsar_memory_total_bytes 2048\n"));
    assert!(p.contains("pulsar_memory_vm_counters{counter=\"pgfault\"} 3\n"));
    let disk_lbl = "device=\"sda\",mount=\"/\",structure=\"whole\",protocol=\"sata\",media=\"ssd\"";
    assert!(p.contains(&format!("pulsar_disk_info{{{disk_lbl}}} 1\n")));
    assert!(p.contains(&format!("pulsar_disk_merged_ops_per_sec{{{disk_lbl},direction=\"write\"}} 2\n")));
    assert!(pos(&p, "# HELP pulsar_disk_info") < pos(&p, "pulsar_disk_info{"));
    assert!(pos(&p, "# TYPE pulsar_disk_merged_ops_per_sec") < pos(&p, "pulsar_disk_used_bytes{"));
    assert!(p.contains("pulsar_network_errors_total{interface=\"eth0\",topology=\"loopback\",family=\"ethernet\",medium=\"software\"} 11\n"));
    assert!(p.contains("state=\"listen\"} 11\n"));
    assert!(p.contains("pulsar_system_info{hostname=\"host\\\"1\",os=\"linux\",os_version=\"Debian\",kernel=\"6.1\",arch=\"x86_64\"} 1\n"));
    assert!(p.contains("pulsar_linux_cgroup_info{version=\"2\",path=\"/user.slice\"} 1\n"));
    assert!(p.contains("pulsar_linux_cgroup_memory_max_bytes 100\n"));
    assert!(!p.contains("pulsar_linux_cgroup_pids_max"));
    assert!(p.contains("pulsar_linux_psi_total{resource=\"cpu\",scope=\"some\"} 77\n"));
    assert!(pos(&p, "pulsar_cpu_usage_percent") < pos(&p, "pulsar_memory_total_bytes"));
    assert!(pos(&p, "pulsar_memory_vm_counters") < pos(&p, "pulsar_disk_used_bytes"));
    assert!(pos(&p, "pulsar_disk_merged_ops_per_sec{") < pos(&p, "# HELP pulsar_network_rx_bytes_sec"));
    assert!(pos(&p, "pulsar_network_tcp_retrans_segments{") < pos(&p, "pulsar_system_uptime_seconds"));
    assert!(pos(&p, "pulsar_linux_cgroup_cpu_throttled_usec") < pos(&p, "pulsar_linux_psi_avg10"));
}

#[test]
fn csv_export_keeps_the_row_order() {
    let c = csv_export(5, &full());
    assert!(c.starts_with("timestamp,metric,value\n5,cpu.global_usage_pct,12.50\n"));
    assert!(c.contains("5,cpu.core_1.usage_pct,5.00\n"));
    assert!(c.contains("5,mem.total_kb,2\n"));
    assert!(c.contains("5,disk.sda.structure.whole,1\n"));
    assert!(c.contains("5,disk.sda.filesystem_family.ext,1\n"));
    assert!(!c.contains("volume_kind"));
    assert!(!c.contains("scheduler"));
    assert!(c.contains("5,disk.sda.children_count,2\n5,disk.sda.holders_count,0\n"));
    assert!(c.contains("5,disk.sda.flag.removable,1\n"));
    assert!(c.contains("5,net.eth0.flag.loopback,1\n5,net.eth0.flag.virtual,1\n5,net.eth0.flag.wireless,0\n"));
    assert!(c.contains("5,net.eth0.drops,15\n"));
    assert!(c.contains("5,process.42.cpu_pct,1.25\n"));
    assert!(c.contains("5,linux.cgroup.memory_max_bytes,100\n"));
    assert!(c.contains("5,linux.psi.cpu.some.avg60,0.25\n"));
    assert!(pos(&c, "disk.sda") < pos(&c, "net.eth0"));
    assert!(pos(&c, "net.eth0") < pos(&c, "process.42"));
    assert!(pos(&c, "system.cpu_count") < pos(&c, "linux.cgroup"));
    assert!(c.ends_with("5,computed.alerts_critical,1\n"));
}

#[test]
fn prometheus_export_writes_each_header_once() {
    let mut f = full();
    f.psi.push(PressureFigures {
        resource: t("memory"),
        scope: t("some"),
        avg10: t("1.00"),
        avg60: t("0.75"),
        avg300: t("0.50"),
        total: 9,
    });
    f.disks.push(disk());
    f.networks.push(net());
    let p = prometheus_export(&f);
    let mut seen = std::collections::HashSet::new();
    for line in p.lines().filter(|l| l.starts_with("# TYPE ") || l.starts_with("# HELP ")) {
        let name: Vec<&str> = line.splitn(4, ' ').collect();
        assert!(seen.insert((name[1].to_string(), name[2].to_string())), "repeated: {line}");
    }
    assert_eq!(p.matches("# TYPE pulsar_linux_psi_avg10 gauge\n").count(), 1);
    assert!(pos(&p, "# TYPE pulsar_linux_psi_total") < pos(&p, "pulsar_linux_psi_avg10{resource=\"cpu\""));
    assert!(p.contains("pulsar_linux_psi_avg10{resource=\"memory\",scope=\"some\"} 1.00\n"));
    assert!(p.contains("pulsar_linux_psi_total{resource=\"memory\",scope=\"some\"} 9\n"));
}
