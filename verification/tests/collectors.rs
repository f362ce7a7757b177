use pulsar::collectors::{
    count_alert_levels, cpu_deltas, disk_deltas, is_jvm_process, net_deltas, network_metrics,
    process_is_watched, rss_kb, state_from_char, Alert, AlertLevel, CpuCollector, DiskCollector,
    LinuxCollector, LogsCollector, MemoryCollector, NetRates, NetworkCollector, ProcessState,
    SystemCollector,
};
use pulsar::config::LogsConfig;
use pulsar::platform::api::{RawCpuStat, RawDiskStat, RawNetConnections, RawNetStat};

fn alert(level: AlertLevel) -> Alert {
    Alert { level, message: String::new() }
}

#[test]
fn alert_levels_are_counted() {
    let alerts = vec![
        alert(AlertLevel::Critical),
        alert(AlertLevel::Warning),
        alert(AlertLevel::Critical),
        alert(AlertLevel::Info),
    ];
    assert_eq!(count_alert_levels(&alerts), (1, 1, 2));
    assert_eq!(count_alert_levels(&vec![]), (0, 0, 0));
    assert_eq!(AlertLevel::default(), AlertLevel::Info);
}

#[test]
fn process_states_from_codes() {
    assert_eq!(state_from_char('R'), ProcessState::Running);
    assert_eq!(state_from_char('S'), ProcessState::Sleeping);
    assert_eq!(state_from_char('D'), ProcessState::DiskSleep);
    assert_eq!(state_from_char('Z'), ProcessState::Zombie);
    assert_eq!(state_from_char('T'), ProcessState::Stopped);
    assert_eq!(state_from_char('t'), ProcessState::TracingStop);
    assert_eq!(state_from_char('?'), ProcessState::Unknown);
    assert_eq!(ProcessState::default(), ProcessState::Unknown);
}

#[test]
fn jvm_detection_and_watch_filter() {
    assert!(is_jvm_process(true, "java", ""));
    assert!(is_jvm_process(true, "app", "/opt/jvm/bin/x"));
    assert!(!is_jvm_process(false, "java", "java"));
    assert!(!is_jvm_process(true, "python", "run.py"));
    assert!(process_is_watched(None, 5));
    assert!(process_is_watched(Some(5), 5));
    assert!(!process_is_watched(Some(5), 6));
    assert_eq!(rss_kb(10, 4096), 40);
}

fn cpu(user: u64, idle: u64) -> RawCpuStat {
    RawCpuStat { user, nice: 0, system: 0, idle, iowait: 0, irq: 0, softirq: 0, steal: 0 }
}

#[test]
fn cpu_deltas_saturate() {
    let d = cpu_deltas(&cpu(150, 300), &cpu(100, 350));
    assert_eq!(d.user, 50);
    assert_eq!(d.idle, 0);
    assert_eq!(d.total, 0);
    let e = cpu_deltas(&cpu(200, 400), &cpu(100, 300));
    assert_eq!(e.total, 200);
}

fn disk(device: &str, reads: u64, sectors: u64) -> RawDiskStat {
    RawDiskStat {
        device: device.to_string(),
        reads_completed: reads,
        reads_merged: 0,
        reads_sectors: sectors,
        reads_time_ms: 0,
        writes_completed: 0,
        writes_merged: 0,
        writes_sectors: 0,
        writes_time_ms: 0,
        io_ticks: 0,
        weighted_io_time_ms: 0,
    }
}

#[test]
fn disk_deltas_turn_sectors_into_kib() {
    let d = disk_deltas(&disk("sda", 15, 1000), &disk("sda", 10, 0));
    assert_eq!(d.reads, 5);
    assert_eq!(d.read_kb, 500);
    assert_eq!(disk_deltas(&disk("sda", 1, 0), &disk("sda", 10, 10)).reads, 0);
}

fn net(name: &str, rx: u64) -> RawNetStat {
    RawNetStat {
        interface: name.to_string(),
        rx_bytes: rx,
        rx_packets: 1,
        rx_errors: 2,
        rx_dropped: 3,
        tx_bytes: 4,
        tx_packets: 5,
        tx_errors: 6,
        tx_dropped: 7,
    }
}

#[test]
fn network_figures_combine_rates_and_sockets() {
    assert_eq!(net_deltas(&net("eth0", 100), &net("eth0", 40)), (60, 0, 0, 0));
    let mut c = RawNetConnections::default();
    c.total = 9;
    c.tcp_listen = 2;
    let rates = NetRates { rx_bytes_sec: 1, tx_bytes_sec: 2, rx_packets_sec: 3, tx_packets_sec: 4 };
    let m = network_metrics(77, &net("eth0", 0), &rates, &c);
    assert_eq!(m.interface, "eth0");
    assert_eq!((m.rx_bytes_sec, m.tx_packets_sec), (1, 4));
    assert_eq!((m.rx_errors, m.tx_dropped), (2, 7));
    assert_eq!((m.connections_total, m.tcp_listen), (9, 2));
}

#[test]
fn collectors_remember_previous_readings() {
    let mut d = DiskCollector::new();
    assert_eq!(d.name(), "disk");
    assert!(d.previous("sda").is_none());
    d.remember(disk("sda", 1, 0));
    d.remember(disk("sdb", 2, 0));
    d.remember(disk("sda", 3, 0));
    assert_eq!(d.prev.len(), 2);
    let i = d.previous("sda").unwrap();
    assert_eq!(d.prev[i].reads_completed, 3);
    assert_eq!(d.elapsed_ms(10), None);
    d.mark_polled(100);
    assert_eq!(d.elapsed_ms(350), Some(250));
    assert_eq!(d.elapsed_ms(100), None);

    let mut n = NetworkCollector::new();
    n.remember(net("eth0", 1));
    n.remember(net("eth0", 5));
    assert_eq!(n.prev.len(), 1);
    assert_eq!(n.prev[0].rx_bytes, 5);
    assert_eq!(n.name(), "network");

    let mut c = CpuCollector::new();
    assert_eq!(c.previous_core(0), None);
    c.remember(cpu(1, 1), vec![cpu(2, 2)]);
    assert_eq!(c.previous_core(0), Some(cpu(2, 2)));
    assert_eq!(c.name(), "cpu");

    assert_eq!(LinuxCollector::new().name(), "linux");
    assert_eq!(MemoryCollector::new().name(), "memory");
    assert_eq!(SystemCollector::new().name(), "system");
    let l = LogsCollector::new(LogsConfig::default());
    assert_eq!(l.name(), "logs");
    assert_eq!(l.config.system_max_entries, 24);
}
