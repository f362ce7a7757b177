use pulsar::platform::macos::{
    disk_rows, format_os_version, page_size, parse_ps_cpu_time_ns, parse_vm_stat_value,
    read_disks, read_mount_map, read_net_connections, read_network, read_uptime_seconds,
};

#[test]
fn parse_ps_cpu_time_without_days() {
    assert_eq!(parse_ps_cpu_time_ns("01:02"), Some(62_000_000_000));
    assert_eq!(parse_ps_cpu_time_ns("01:02:03"), Some(3_723_000_000_000));
}

#[test]
fn parse_ps_cpu_time_with_days() {
    assert_eq!(parse_ps_cpu_time_ns("2-00:00:01"), Some(172_801_000_000_000));
}

#[test]
fn ps_cpu_time_rejects_garbage() {
    assert_eq!(parse_ps_cpu_time_ns("abc"), None);
}

#[test]
fn vm_stat_values_drop_the_trailing_dot() {
    assert_eq!(parse_vm_stat_value("Pages free:                               12345.", "Pages free"), Some(12345));
    assert_eq!(parse_vm_stat_value("Pages active: 7.", "Pages free"), None);
}

#[test]
fn os_version_joins_version_and_build() {
    assert_eq!(format_os_version("14.4", "23E214"), "14.4 (23E214)");
}

const DF: &str = "Filesystem 1024-blocks Used Available Capacity Mounted\n/dev/disk1s1 100 50 50 50% /\n/dev/disk1s2 100 50 50 50% /System/Volumes/Data\nmap auto_home 0 0 0 100% /System/Volumes/Data/home\n/dev/disk1s1 100 50 50 50% /Volumes/Other\n";

#[test]
fn df_rows_and_disks_and_mounts() {
    let rows = disk_rows(DF);
    assert_eq!(rows.len(), 3);
    assert_eq!(rows[0].device, "disk1s1");
    assert_eq!(rows[1].mount_point, "/System/Volumes/Data");
    let disks = read_disks(&rows);
    assert_eq!(disks.len(), 2);
    assert_eq!(disks[1].device, "disk1s2");
    assert_eq!(disks[0].reads_completed, 0);
    let map = read_mount_map(&rows);
    assert_eq!(map.len(), 2);
    let m = map.iter().find(|(d, _)| d == "disk1s1").unwrap();
    assert_eq!(m.1, "/Volumes/Other");
}

#[test]
fn netstat_tcp_lines_are_counted() {
    let out = "Active Internet connections\ntcp4 0 0 1.2.3.4.5 6.7.8.9.10 ESTABLISHED\ntcp6 0 0 a b LISTEN\nudp4 0 0 a b\n";
    let c = read_net_connections(out);
    assert_eq!(c.total, 2);
    assert_eq!(c.established, 1);
}

#[test]
fn netstat_interfaces_add_up_per_name() {
    let out = "Name Mtu Network Address Ipkts Ierrs Opkts Oerrs Coll Drop Ibytes Obytes\nen0 1500 <Link#4> aa 10 1 20 2 0 0 1000 2000\nlo0 16384 <Link#1> x 5 0 5 0 0 0 50 50\nen0 1500 192.168.1 192.168.1.2 3 0 4 0 0 0 300 400\nen1 1500 <Link#5> bb 1 0 1 0 0 0 x 10\n";
    let nets = read_network(out);
    assert_eq!(nets.len(), 1);
    assert_eq!(nets[0].interface, "en0");
    assert_eq!(nets[0].rx_packets, 13);
    assert_eq!(nets[0].tx_packets, 24);
    assert_eq!(nets[0].rx_bytes, 1300);
    assert_eq!(nets[0].tx_bytes, 2400);
    assert_eq!(nets[0].rx_errors, 1);
}

#[test]
fn uptime_counts_from_boot_time() {
    assert_eq!(read_uptime_seconds("{ sec = 1000, usec = 0 } Thu Jan 1", 4600), 3600);
    assert_eq!(page_size(), 1024);
}
