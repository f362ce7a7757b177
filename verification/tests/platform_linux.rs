use pulsar::platform::pressure::{parse_pressure_line, parse_pressure_text};
use pulsar::platform::api::RawNetConnections;
use pulsar::platform::linux::{
    cmdline_text, finish_connections, snmp_counter, join_cgroup_path, parse_pid_stat, process_user, kernel_release, os_pretty_name, parse_cpu_max_part,
    parse_io_bytes, parse_meminfo, passwd_user, parse_cgroup_v2_path, parse_cpu_line, parse_cpu_max,
    parse_cpu_stat, parse_diskstats, parse_limit_u64, parse_mounts, parse_net_dev,
    parse_proc_stat, parse_socket_table, parse_vmstat_counter, parse_vmstat_sum, parse_vmstat_sum_checked,
    strip_partition_suffix,
};

#[test]
fn parses_cgroup_v2_path() {
    let path = parse_cgroup_v2_path("0::/user.slice/app.slice/pulsar.service\n").unwrap();
    assert_eq!(path, "/user.slice/app.slice/pulsar.service");
}

#[test]
fn parses_limit_values() {
    assert_eq!(parse_limit_u64("12345\n"), Some(12345));
    assert_eq!(parse_limit_u64("max\n"), None);
}

#[test]
fn parses_cpu_max_values() {
    assert_eq!(parse_cpu_max("max 100000"), (None, Some(100000)));
    assert_eq!(parse_cpu_max("20000 100000"), (Some(20000), Some(100000)));
}

#[test]
fn parses_vmstat_counters_and_prefix_sums() {
    let content = "pgfault 10\npgmajfault 2\npgscan_kswapd 5\npgscan_direct 7\n";
    assert_eq!(parse_vmstat_counter(content, "pgfault"), 10);
    assert_eq!(parse_vmstat_counter(content, "pgmajfault"), 2);
    assert_eq!(parse_vmstat_sum(content, "pgscan_"), 12);
}

#[test]
fn parses_socket_tables_into_state_buckets() {
    let tcp = "  sl  local_address rem_address   st tx_queue rx_queue tr tm->when retrnsmt   uid  timeout inode\n   0: 00000000:0016 00000000:0000 0A 00000000:00000000 00:00000000 00000000   100        0 1 1 0000000000000000 100 0 0 10 0\n   1: 0100007F:9C40 0100007F:1F90 01 00000000:00000000 00:00000000 00000000   100        0 1 1 0000000000000000 100 0 0 10 0\n";
    let udp = "  sl  local_address rem_address   st tx_queue rx_queue tr tm->when retrnsmt   uid  timeout inode ref pointer drops\n   0: 00000000:0035 00000000:0000 07 00000000:00000000 00:00000000 00000000   0        0 1 2 0000000000000000 0\n";
    let mut connections = RawNetConnections::default();

    parse_socket_table(tcp, false, &mut connections);
    parse_socket_table(udp, true, &mut connections);

    assert_eq!(connections.total, 2);
    assert_eq!(connections.established, 1);
    assert_eq!(connections.tcp_listen, 1);
    assert_eq!(connections.udp_total, 1);
    assert_eq!(connections.udp_close, 1);
}

#[test]
fn cpu_line_reads_counters_and_tolerates_bad_tail() {
    let s = parse_cpu_line("cpu  10 20 30 40 50 60 70 80").unwrap();
    assert_eq!((s.user, s.nice, s.system, s.idle), (10, 20, 30, 40));
    assert_eq!((s.iowait, s.irq, s.softirq, s.steal), (50, 60, 70, 80));
    let t = parse_cpu_line("cpu0 1 2 3 4 x y z w").unwrap();
    assert_eq!((t.iowait, t.irq, t.softirq, t.steal), (0, 0, 0, 0));
    assert!(parse_cpu_line("cpu 1 2 3").is_none());
    assert!(parse_cpu_line("cpu a 2 3 4 5 6 7 8").is_none());
}

#[test]
fn partition_suffixes_are_stripped() {
    assert_eq!(strip_partition_suffix("nvme0n1p2"), "nvme0n1");
    assert_eq!(strip_partition_suffix("sda3"), "sda");
    assert_eq!(strip_partition_suffix("sda"), "sda");
    assert_eq!(strip_partition_suffix("123"), "123");
}

#[test]
fn cgroup_paths_join_under_the_root() {
    assert_eq!(join_cgroup_path("/sys/fs/cgroup", "/user.slice"), "/sys/fs/cgroup/user.slice");
    assert_eq!(join_cgroup_path("/sys/fs/cgroup", "/"), "/sys/fs/cgroup");
}

#[test]
fn cgroup_cpu_stat_reads_its_six_counters() {
    let content = "usage_usec 100\nuser_usec 60\nsystem_usec 40\nnr_periods 10\nnr_throttled 3\nthrottled_usec 500\n";
    assert_eq!(parse_cpu_stat(content), (100, 60, 40, 10, 3, 500));
}

#[test]
fn diskstats_keep_whole_disks_only() {
    let content = "   8       0 sda 100 2 300 4 500 6 700 8 0 10 11\n   8       1 sda1 1 1 1 1 1 1 1 1 0 1 1\n   7       0 loop0 1 1 1 1 1 1 1 1 0 1 1\n   8      16 sdb x 2 3 4 5 6 7 8 0 9 10\n";
    let disks = parse_diskstats(content);
    assert_eq!(disks.len(), 2);
    assert_eq!(disks[0].device, "sda");
    assert_eq!(disks[0].reads_completed, 100);
    assert_eq!(disks[0].writes_time_ms, 8);
    assert_eq!(disks[0].io_ticks, 10);
    assert_eq!(disks[0].weighted_io_time_ms, 11);
    assert_eq!(disks[1].device, "sdb");
    assert_eq!(disks[1].reads_completed, 0);
}

#[test]
fn net_dev_reads_interfaces_but_loopback() {
    let content = "Inter-|   Receive |  Transmit\n face |bytes packets\n    lo: 1 2 3 4 5 6 7 8 9 10 11 12 13 14 15 16\n  eth0: 100 10 1 2 0 0 0 0 200 20 3 4 0 0 0 0\n  bad: 1 2 3\n";
    let nets = parse_net_dev(content);
    assert_eq!(nets.len(), 1);
    assert_eq!(nets[0].interface, "eth0");
    assert_eq!((nets[0].rx_bytes, nets[0].rx_packets, nets[0].rx_errors, nets[0].rx_dropped), (100, 10, 1, 2));
    assert_eq!((nets[0].tx_bytes, nets[0].tx_packets, nets[0].tx_errors, nets[0].tx_dropped), (200, 20, 3, 4));
}

#[test]
fn mounts_keep_first_mount_and_add_parent_disk() {
    let content = "/dev/sda1 / ext4 rw 0 0\n/dev/sda2 /home ext4 rw 0 0\nproc /proc proc rw 0 0\n/dev/sda1 /mnt ext4 rw 0 0\n";
    let map = parse_mounts(content);
    let get = |k: &str| map.iter().find(|(d, _)| d == k).map(|(_, m)| m.clone());
    assert_eq!(get("sda1"), Some("/".to_string()));
    assert_eq!(get("sda"), Some("/".to_string()));
    assert_eq!(get("sda2"), Some("/home".to_string()));
    assert_eq!(get("proc"), None);
    assert_eq!(map.len(), 3);
}

#[test]
fn proc_stat_reads_global_cores_and_counters() {
    let content = "cpu  1 2 3 4 5 6 7 8 0 0\ncpu0 1 1 1 1 1 1 1 1 0 0\ncpu1 2 2 2 2 2 2 2 2 0 0\nintr 12345 1 2\nctxt 999\nbtime 1\n";
    let p = parse_proc_stat(content).unwrap();
    assert_eq!(p.global.user, 1);
    assert_eq!(p.cores.len(), 2);
    assert_eq!(p.cores[1].idle, 2);
    assert_eq!(p.context_switches, 999);
    assert_eq!(p.interrupts, 12345);
    assert!(parse_proc_stat("").is_none());
    assert!(parse_proc_stat("intr 1\n").is_none());
}

#[test]
fn connection_total_covers_tcp_states() {
    let mut c = RawNetConnections::default();
    c.established = 3;
    c.tcp_listen = 2;
    c.total = 4;
    finish_connections(&mut c, Some(7));
    assert_eq!(c.total, 5);
    assert_eq!(c.retrans_segs, 7);
    let mut d = RawNetConnections::default();
    d.total = 9;
    d.established = 1;
    finish_connections(&mut d, None);
    assert_eq!(d.total, 9);
    assert_eq!(d.retrans_segs, 0);
}

#[test]
fn reads_meminfo_counters() {
    let m = parse_meminfo(
        "MemTotal:       16000 kB\nMemFree:         2000 kB\nMemAvailable:    6000 kB\n\
         Buffers:          300 kB\nCached:          4000 kB\nSwapTotal:       1000 kB\n\
         SwapFree:         250 kB\nDirty:             12 kB\n",
    );
    assert_eq!(m.total_kb, 16000);
    assert_eq!(m.used_kb, 10000);
    assert_eq!(m.free_kb, 2000);
    assert_eq!(m.available_kb, 6000);
    assert_eq!(m.buffers_kb, 300);
    assert_eq!(m.cached_kb, 4000);
    assert_eq!(m.swap_total_kb, 1000);
    assert_eq!(m.swap_used_kb, 750);
    assert_eq!(m.dirty_kb, 12);
}

#[test]
fn meminfo_without_available_counts_all_as_used() {
    let m = parse_meminfo("MemTotal: 100 kB\n");
    assert_eq!(m.used_kb, 100);
    assert_eq!(m.swap_used_kb, 0);
}

#[test]
fn reads_os_pretty_name() {
    assert_eq!(
        os_pretty_name("NAME=\"Debian\"\nPRETTY_NAME=\"Debian GNU/Linux 12\"\n"),
        "Debian GNU/Linux 12"
    );
    assert_eq!(os_pretty_name("NAME=x\n"), "Linux");
}

#[test]
fn reads_kernel_release() {
    assert_eq!(kernel_release("Linux version 6.1.0-18-amd64 (debian)"), "6.1.0-18-amd64");
    assert_eq!(kernel_release("Linux"), "unknown");
}

#[test]
fn finds_passwd_user() {
    let passwd = "root:x:0:0:root:/root:/bin/bash\nalice:x:1000:1000::/home/alice:/bin/sh\n";
    assert_eq!(passwd_user(passwd, 1000), Some("alice".to_string()));
    assert_eq!(passwd_user(passwd, 0), Some("root".to_string()));
    assert_eq!(passwd_user(passwd, 42), None);
}

#[test]
fn reads_process_io_bytes() {
    let io = "rchar: 10\nwchar: 20\nread_bytes: 4096\nwrite_bytes: 8192\n";
    assert_eq!(parse_io_bytes(io), (4096, 8192));
    assert_eq!(parse_io_bytes(""), (0, 0));
}

#[test]
fn reads_cpu_max_parts() {
    assert_eq!(parse_cpu_max_part("max"), None);
    assert_eq!(parse_cpu_max_part("50000"), Some(50000));
}

#[test]
fn reads_pid_stat_line() {
    let line = "1234 (my (odd) proc) S 1 1234 1234 0 -1 4194560 500 0 0 0 \
                 150 30 0 0 20 0 7 0 100 123456789 2048 18446744073709551615";
    let p = parse_pid_stat(line).unwrap();
    assert_eq!(p.name, "my (odd) proc");
    assert_eq!(p.state_char, 'S');
    assert_eq!(p.utime, 150);
    assert_eq!(p.stime, 30);
    assert_eq!(p.threads, 7);
    assert_eq!(p.vsize, 123456789);
    assert_eq!(p.rss, 2048);
    assert!(parse_pid_stat("no name here").is_none());
    let short = parse_pid_stat("5 (x) R").unwrap();
    assert_eq!(short.state_char, 'R');
    assert_eq!(short.utime, 0);
    assert_eq!(short.threads, 0);
}

#[test]
fn shows_command_lines_and_users() {
    assert_eq!(cmdline_text("/usr/bin/java\0-jar\0app.jar\0"), "/usr/bin/java -jar app.jar");
    assert_eq!(cmdline_text(""), "");
    let passwd = "root:x:0:0:root:/root:/bin/bash\n";
    assert_eq!(process_user(Some(passwd), 0), "root");
    assert_eq!(process_user(Some(passwd), 1001), "1001");
    assert_eq!(process_user(None, 7), "7");
}

#[test]
fn checked_vmstat_sum_reports_overflow() {
    let content = "pgsteal_kswapd 10\npgsteal_direct 5\npgfault 3\n";
    assert_eq!(parse_vmstat_sum_checked(content, "pgsteal"), Some(15));
    let big = "pgsteal_a 18446744073709551615\npgsteal_b 1\n";
    assert_eq!(parse_vmstat_sum_checked(big, "pgsteal"), None);
}

#[test]
fn reads_snmp_counters() {
    let snmp = "Ip: Forwarding DefaultTTL\nIp: 1 64\n\
                Tcp: RtoAlgorithm ActiveOpens RetransSegs\nTcp: 1 500 42\n";
    assert_eq!(snmp_counter(snmp, "Tcp", "RetransSegs"), Some(42));
    assert_eq!(snmp_counter(snmp, "Ip", "DefaultTTL"), Some(64));
    assert_eq!(snmp_counter(snmp, "Tcp", "Missing"), None);
    assert_eq!(snmp_counter(snmp, "Udp", "InDatagrams"), None);
    assert_eq!(snmp_counter("Tcp: RetransSegs\n", "Tcp", "RetransSegs"), None);
}

#[test]
fn pressure_lines_keep_averages_as_text() {
    let (kind, w) = parse_pressure_line("some avg10=0.12 avg60=0.05 avg300=0.01 total=42").unwrap();
    assert_eq!(kind, "some");
    assert_eq!(w.avg10.as_deref(), Some("0.12"));
    assert_eq!(w.avg60.as_deref(), Some("0.05"));
    assert_eq!(w.avg300.as_deref(), Some("0.01"));
    assert_eq!(w.total, 42);
    assert_eq!(w.averages, vec!["0.12".to_string(), "0.05".to_string(), "0.01".to_string()]);
    let (_, w) = parse_pressure_line("full total=+7 extra=1").unwrap();
    assert_eq!(w.avg10, None);
    assert_eq!(w.total, 7);
    assert!(parse_pressure_line("").is_none());
    assert!(parse_pressure_line("some avg10").is_none());
    assert!(parse_pressure_line("some total=x").is_none());
}

#[test]
fn pressure_files_need_some_or_full() {
    let m = parse_pressure_text("some avg10=1.00 avg60=0.50 avg300=0.25 total=10\nfull avg10=0.00 avg60=0.00 avg300=0.00 total=3\n").unwrap();
    assert_eq!(m.some.unwrap().total, 10);
    assert_eq!(m.full.unwrap().total, 3);
    let twice = parse_pressure_text("some avg10=x total=1\nsome avg10=0.5 total=2\ncpu avg60=y").unwrap();
    assert_eq!(twice.some.unwrap().avg10.as_deref(), Some("0.5"));
    assert_eq!(twice.averages, vec!["x".to_string(), "0.5".to_string(), "y".to_string()]);
    let only_some = parse_pressure_text("some avg10=0.1 total=1").unwrap();
    assert!(only_some.full.is_none());
    assert!(parse_pressure_text("other total=1").is_none());
    assert!(parse_pressure_text("").is_none());
    assert!(parse_pressure_text("some total=1\n\n").is_none());
}

#[test]
fn socket_buckets_add_up_to_the_rows() {
    let tcp = "  sl  local_address rem_address   st\n\
   0: 0100007F:0277 00000000:0000 0A 0\n\
   1: 0100007F:0277 00000000:0000 01 0\n\
   2: 0100007F:0277 00000000:0000 06 0\n\
   3: 0100007F:0277 00000000:0000 0F 0\n\
   4: too short\n";
    let udp = "  sl  local_address rem_address   st\n\
   0: 00000000:0044 00000000:0000 07 0\n\
   1: 00000000:0044 00000000:0000 03 0\n";
    let mut c = RawNetConnections::default();
    parse_socket_table(tcp, false, &mut c);
    let tcp_sum = c.established + c.tcp_syn_sent + c.tcp_syn_recv + c.tcp_fin_wait1 + c.tcp_fin_wait2
        + c.tcp_time_wait + c.tcp_close + c.tcp_close_wait + c.tcp_last_ack + c.tcp_listen + c.tcp_closing
        + c.tcp_other;
    assert_eq!(c.total, 4);
    assert_eq!(tcp_sum, 4);
    assert_eq!(c.tcp_other, 1);
    assert_eq!(c.udp_total, 0);
    parse_socket_table(udp, true, &mut c);
    assert_eq!(c.udp_total, 2);
    assert_eq!(c.udp_established + c.udp_close + c.udp_other, 2);
    assert_eq!(c.total, 4);
}

#[test]
fn parses_pressure_lines() {
    let (kind, window) = parse_pressure_line("some avg10=1.23 avg60=0.45 avg300=0.67 total=890").unwrap();
    let avg = |t: &Option<String>| t.as_deref().unwrap().parse::<f64>().unwrap();
    assert_eq!(kind, "some");
    assert!((avg(&window.avg10) - 1.23).abs() < f64::EPSILON);
    assert!((avg(&window.avg60) - 0.45).abs() < f64::EPSILON);
    assert!((avg(&window.avg300) - 0.67).abs() < f64::EPSILON);
    assert_eq!(window.total, 890);
}

#[test]
fn parses_pressure_metrics_with_some_and_full() {
    let metric = parse_pressure_text(
        "some avg10=1.00 avg60=2.00 avg300=3.00 total=4\nfull avg10=5.00 avg60=6.00 avg300=7.00 total=8\n",
    )
    .unwrap();
    assert_eq!(metric.some.unwrap().total, 4);
    assert_eq!(metric.full.unwrap().total, 8);
}
