use pulsar::collectors::SystemMetrics;
use pulsar::inventory::{
    build_disk_groups, build_inventory, group_root, inventory_host, unique_sorted, DiskInventoryItem,
    NetworkInventoryView, SnapshotDisk,
};
use pulsar::platform::api::RawDiskInventory;

fn item(device: &str, stack: &[&str], fs: &str, mount: &str) -> DiskInventoryItem {
    DiskInventoryItem {
        device: device.to_string(),
        structure: "partition".to_string(),
        volume_kind: if fs.is_empty() { String::new() } else { "volume".to_string() },
        filesystem: fs.to_string(),
        filesystem_family: "linux".to_string(),
        transport: "sata".to_string(),
        model: format!("model-{device}"),
        protocol: "ata".to_string(),
        media: "ssd".to_string(),
        mount_point: mount.to_string(),
        mount_points: Vec::new(),
        logical_stack: stack.iter().map(|s| s.to_string()).collect(),
    }
}

#[test]
fn unique_sorted_sorts_and_dedups() {
    let v = vec!["b".to_string(), "a".to_string(), "b".to_string(), "C".to_string()];
    assert_eq!(unique_sorted(v), vec!["C".to_string(), "a".to_string(), "b".to_string()]);
    assert!(unique_sorted(Vec::new()).is_empty());
}

#[test]
fn disks_group_under_their_root_device() {
    let items = vec![
        item("sda1", &["sda", "sda1"], "ext4", "/"),
        item("sdb", &[], "", ""),
        item("sda", &["sda"], "", ""),
        item("sda2", &["sda", "sda2"], "xfs", ""),
        item("nvme0n1p1", &["", "x"], "vfat", "/boot"),
    ];
    assert_eq!(group_root(&items[0]), "sda");
    assert_eq!(group_root(&items[4]), "nvme0n1p1");
    let groups = build_disk_groups(&items);
    let roots: Vec<&str> = groups.iter().map(|g| g.root_device.as_str()).collect();
    assert_eq!(roots, vec!["nvme0n1p1", "sda", "sdb"]);
    let sda = &groups[1];
    assert_eq!(sda.model, "model-sda");
    assert_eq!(sda.members, vec!["sda".to_string(), "sda1".to_string(), "sda2".to_string()]);
    assert_eq!(sda.mounted_devices, vec!["sda1".to_string()]);
    assert_eq!(sda.filesystems, vec!["ext4".to_string(), "xfs".to_string()]);
    assert_eq!(sda.volume_kinds, vec!["volume".to_string()]);
    assert!(!sda.remote);
}

#[test]
fn group_without_own_disk_uses_first_member() {
    let mut a = item("md0p1", &["md0", "md0p1"], "ext4", "");
    a.model = "first".to_string();
    a.filesystem_family = "remote".to_string();
    let b = item("md0p2", &["md0", "md0p2"], "", "");
    let groups = build_disk_groups(&vec![a, b]);
    assert_eq!(groups.len(), 1);
    assert_eq!(groups[0].model, "first");
    assert!(groups[0].remote);
}

#[test]
fn host_identity_is_copied() {
    let s = SystemMetrics {
        timestamp: 1,
        hostname: "h".to_string(),
        os_name: "linux".to_string(),
        os_version: "6".to_string(),
        kernel_version: "6.1".to_string(),
        uptime_seconds: 5,
        cpu_count: 4,
        architecture: "x86_64".to_string(),
    };
    let h = inventory_host(&s);
    assert_eq!(h.hostname, "h");
    assert_eq!(h.kernel_version, "6.1");
    assert_eq!(h.architecture, "x86_64");
}

fn snapshot_disk(device: &str, mount: &str) -> SnapshotDisk {
    SnapshotDisk {
        device: device.to_string(),
        parent: "sda".to_string(),
        structure: String::new(),
        structure_hint: "partition".to_string(),
        volume_kind: "filesystem".to_string(),
        filesystem: "ext4".to_string(),
        filesystem_family: "linux".to_string(),
        label: "root".to_string(),
        uuid: "u-1".to_string(),
        part_uuid: "p-1".to_string(),
        model: "Disk".to_string(),
        serial: "S1".to_string(),
        protocol_hint: "nvme".to_string(),
        media_hint: "ssd".to_string(),
        reference: "ref".to_string(),
        scheduler: "none".to_string(),
        rotational: false,
        removable: false,
        read_only: true,
        mount_point: mount.to_string(),
        mount_points: vec![mount.to_string()],
        logical_stack: vec!["sda".to_string(), device.to_string()],
        slaves: Vec::new(),
        holders: Vec::new(),
        children: Vec::new(),
    }
}

fn raw_disk(device: &str, mounts: &[&str]) -> RawDiskInventory {
    RawDiskInventory {
        device: device.to_string(),
        parent: Some("disk0".to_string()),
        structure: String::new(),
        volume_kind: "windows-volume".to_string(),
        filesystem: "NTFS".to_string(),
        filesystem_family: "windows".to_string(),
        label: "System".to_string(),
        uuid: String::new(),
        part_uuid: String::new(),
        model: "Samsung".to_string(),
        serial: String::new(),
        transport: "SATA".to_string(),
        reference: String::new(),
        scheduler: String::new(),
        rotational: Some(false),
        removable: None,
        read_only: None,
        mount_points: mounts.iter().map(|s| s.to_string()).collect(),
        logical_stack: Vec::new(),
        slaves: Vec::new(),
        holders: Vec::new(),
        children: Vec::new(),
    }
}

#[test]
fn inventory_from_snapshot_disks_alone() {
    let host = SystemMetrics {
        timestamp: 1,
        hostname: "box".to_string(),
        os_name: "Linux".to_string(),
        os_version: "6".to_string(),
        kernel_version: "6.1".to_string(),
        uptime_seconds: 5,
        cpu_count: 4,
        architecture: "x86_64".to_string(),
    };
    let disks = vec![snapshot_disk("sda1", "/"), snapshot_disk("sda2", "/home")];
    let nets = vec![NetworkInventoryView {
        interface: "eth0".to_string(),
        topology: "physical".to_string(),
        family: "ethernet".to_string(),
        medium: "wired".to_string(),
        connections_total: 3,
        connections_established: 2,
    }];
    let inv = build_inventory(Some(host), &disks, &Vec::new(), nets);
    let h = inv.host.unwrap();
    assert_eq!(h.hostname, "box");
    assert_eq!(h.architecture, "x86_64");
    assert_eq!(inv.disks.len(), 2);
    assert_eq!(inv.disks[0].structure, "partition");
    assert_eq!(inv.disks[1].mount_point, "/home");
    assert_eq!(inv.disks[0].transport, "nvme");
    assert_eq!(inv.disks[1].metrics, Some(1));
    assert_eq!(inv.groups.len(), 1);
    assert_eq!(inv.groups[0].root_device, "sda");
    assert_eq!(inv.networks[0].interface, "eth0");
}

#[test]
fn inventory_merges_platform_disks_with_the_snapshot() {
    let disks = vec![snapshot_disk("C:", ""), snapshot_disk("C:", "C:\\")];
    let raw = vec![raw_disk("C:", &["C:\\"]), raw_disk("D:", &[])];
    let inv = build_inventory(None, &disks, &raw, Vec::new());
    assert!(inv.host.is_none());
    assert_eq!(inv.disks.len(), 2);
    let c = &inv.disks[0];
    assert_eq!(c.parent, "disk0");
    assert_eq!(c.structure, "partition");
    assert_eq!(c.volume_kind, "windows-volume");
    assert_eq!(c.mount_point, "C:\\");
    assert_eq!(c.logical_stack, vec!["sda".to_string(), "C:".to_string()]);
    assert_eq!(c.protocol, "nvme");
    assert_eq!(c.media, "ssd");
    assert_eq!(c.metrics, Some(1));
    assert!(!c.rotational);
    let d = &inv.disks[1];
    assert_eq!(d.structure, "");
    assert_eq!(d.mount_point, "");
    assert_eq!(d.protocol, "SATA");
    assert_eq!(d.media, "");
    assert_eq!(d.metrics, None);
    assert_eq!(inv.groups.len(), 2);
    assert_eq!(inv.groups[0].root_device, "D:");
    assert_eq!(inv.groups[1].root_device, "sda");
}
