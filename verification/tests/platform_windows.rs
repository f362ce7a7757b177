use pulsar::platform::windows_disks::read_disk_inventory;
use pulsar::platform::windows::{
    children_of, disk_entry, filesystem_family, filetime_to_u64, format_version_and_build,
    logical_stack, page_size, powershell_number_u32, read_disks, read_mount_map,
    read_net_connections, read_network, remote_label, AdapterStats,
};

#[test]
fn version_and_build_are_joined() {
    assert_eq!(format_version_and_build("10.0.22631", "22631"), "10.0.22631 (build 22631)");
    assert_eq!(format_version_and_build(" ", "22631"), "22631");
    assert_eq!(format_version_and_build("", ""), "");
}

#[test]
fn filetime_halves_combine() {
    assert_eq!(filetime_to_u64(1, 2), 4_294_967_298);
}

#[test]
fn powershell_counts_read_trimmed() {
    assert_eq!(powershell_number_u32(" 42\r\n"), Some(42));
    assert_eq!(powershell_number_u32("n/a"), None);
    let c = read_net_connections(Some(5), None);
    assert_eq!((c.total, c.established), (5, 0));
    assert_eq!(page_size(), 4096);
}

#[test]
fn logical_disks_map_and_read() {
    let a = disk_entry(Some("C:".to_string()), Some(100), Some(30)).unwrap();
    assert_eq!(a.used_bytes, 70);
    assert_eq!(a.mount_point, "C:");
    let b = disk_entry(Some("D:".to_string()), None, Some(5)).unwrap();
    assert_eq!(b.used_bytes, 0);
    assert!(disk_entry(None, Some(1), Some(1)).is_none());
    let entries = vec![a, b];
    let map = read_mount_map(&entries);
    assert_eq!(map.len(), 2);
    let disks = read_disks(&entries);
    assert_eq!(disks[1].device, "D:");
    assert_eq!(disks[1].writes_completed, 0);
}

#[test]
fn adapters_without_names_are_skipped() {
    let named = AdapterStats {
        name: Some("Ethernet".to_string()),
        received_bytes: Some(10),
        sent_bytes: None,
        received_unicast_packets: Some(1),
        sent_unicast_packets: Some(2),
        received_packet_errors: None,
        outbound_packet_errors: Some(3),
        received_discarded_packets: None,
        outbound_discarded_packets: Some(4),
    };
    let unnamed = AdapterStats { name: Some(String::new()), ..named.clone() };
    let stats = read_network(&vec![unnamed, named]);
    assert_eq!(stats.len(), 1);
    assert_eq!(stats[0].interface, "Ethernet");
    assert_eq!((stats[0].rx_bytes, stats[0].tx_bytes, stats[0].tx_dropped), (10, 0, 4));
}

#[test]
fn filesystem_families_group_names() {
    assert_eq!(filesystem_family("NTFS"), "windows");
    assert_eq!(filesystem_family("ReFS"), "windows");
    assert_eq!(filesystem_family("exFAT"), "fat");
    assert_eq!(filesystem_family("Btrfs"), "btrfs");
    assert_eq!(remote_label("Z:", ""), "Z:");
    assert_eq!(remote_label("Z:", "\\\\srv\\share"), "\\\\srv\\share");
}

#[test]
fn volume_stacks_follow_parent_links() {
    let parents = vec![
        ("C:".to_string(), Some("disk0".to_string())),
        ("D:".to_string(), Some("disk0".to_string())),
        ("E:".to_string(), None),
    ];
    assert_eq!(logical_stack("C:", &parents), vec!["disk0".to_string(), "C:".to_string()]);
    assert_eq!(logical_stack("E:", &parents), vec!["E:".to_string()]);
    assert_eq!(children_of("disk0", &parents), vec!["C:".to_string(), "D:".to_string()]);
    assert!(children_of("C:", &parents).is_empty());
}

#[test]
fn disk_inventory_reads_partitions_and_shares() {
    let parts = r#"[{"Device":"C:","Parent":"disk0","Structure":"Basic","FileSystem":"NTFS","Label":"System","Uuid":null,"PartUuid":"{abc}","Model":"Samsung","Serial":"S1","Transport":"NVMe","Reference":"r0","MountPoints":["C:\\",""]},{"Device":"disk0","Parent":null,"Structure":"partition","FileSystem":null,"Label":null,"Uuid":null,"PartUuid":null,"Model":null,"Serial":7,"Transport":null,"Reference":null,"MountPoints":"D:\\"}]"#;
    let maps = r#"{"LocalPath":"Z:","RemotePath":"\\\\srv\\share","Status":0}"#;
    let inv = read_disk_inventory(Some(parts.to_string()), Some(maps.to_string())).unwrap();
    assert_eq!(inv.len(), 3);
    let c = &inv[0];
    assert_eq!(c.device, "C:");
    assert_eq!(c.parent.as_deref(), Some("disk0"));
    assert_eq!(c.volume_kind, "windows-volume");
    assert_eq!(c.filesystem_family, "windows");
    assert_eq!(c.uuid, "");
    assert_eq!(c.mount_points, vec!["C:\\".to_string()]);
    assert_eq!(c.logical_stack, vec!["disk0".to_string(), "C:".to_string()]);
    assert!(c.children.is_empty());
    let d = &inv[1];
    assert_eq!(d.serial, "7");
    assert_eq!(d.filesystem_family, "");
    assert_eq!(d.mount_points, vec!["D:\\".to_string()]);
    assert_eq!(d.children, vec!["C:".to_string()]);
    assert_eq!(d.logical_stack, vec!["disk0".to_string()]);
    let z = &inv[2];
    assert_eq!(z.device, "Z:");
    assert_eq!(z.structure, "remote-mount");
    assert_eq!(z.label, "\\\\srv\\share");
    assert_eq!(z.reference, "\\\\srv\\share");
    assert_eq!(z.mount_points, vec!["Z:".to_string()]);
    assert_eq!(z.logical_stack, vec!["Z:".to_string()]);
}

#[test]
fn disk_inventory_without_output_or_with_a_cycle() {
    assert_eq!(read_disk_inventory(None, None).map(|v| v.len()), Some(0));
    assert_eq!(read_disk_inventory(Some("not json".to_string()), Some("null".to_string())).map(|v| v.len()), Some(0));
    let cycle = r#"[{"Device":"a","Parent":"b"},{"Device":"b","Parent":"a"}]"#;
    assert!(read_disk_inventory(Some(cycle.to_string()), None).is_none());
    let unnamed = r#"[{"Status":0}]"#;
    assert_eq!(read_disk_inventory(None, Some(unnamed.to_string())).map(|v| v.len()), Some(0));
}
