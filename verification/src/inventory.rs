//! The host inventory: the host identity, the network interfaces, and the
//! disks grouped by the physical device that holds them.
use vstd::prelude::*;
use crate::collectors::SystemMetrics;
use crate::platform::api::RawDiskInventory;
use crate::text::{lemma_text_lt_order, lemma_text_lt_trans, str_eq, text_lt, text_lt_exec};

verus! {

broadcast use vstd::string::group_string_axioms;

/// Who the host is.
#[derive(Debug, Clone)]
pub struct InventoryHost {
    pub hostname: String,
    pub os_name: String,
    pub os_version: String,
    pub kernel_version: String,
    pub architecture: String,
}

/// The inventory identity of a host.
pub fn inventory_host(system: &SystemMetrics) -> (r: InventoryHost)
    ensures
        r.hostname@ == system.hostname@,
        r.os_name@ == system.os_name@,
        r.os_version@ == system.os_version@,
        r.kernel_version@ == system.kernel_version@,
        r.architecture@ == system.architecture@,
{
    InventoryHost {
        hostname: system.hostname.clone(),
        os_name: system.os_name.clone(),
        os_version: system.os_version.clone(),
        kernel_version: system.kernel_version.clone(),
        architecture: system.architecture.clone(),
    }
}

/// One network interface of the inventory.
#[derive(Debug, Clone)]
pub struct NetworkInventoryView {
    pub interface: String,
    pub topology: String,
    pub family: String,
    pub medium: String,
    pub connections_total: u32,
    pub connections_established: u32,
}

/// The disks that sit on one physical device.
#[derive(Debug, Clone)]
pub struct DiskInventoryGroupView {
    pub root_device: String,
    pub transport: String,
    pub model: String,
    pub protocol: String,
    pub media: String,
    pub remote: bool,
    pub members: Vec<String>,
    pub mounted_devices: Vec<String>,
    pub filesystems: Vec<String>,
    pub volume_kinds: Vec<String>,
}

/// What grouping reads of one disk of the inventory.
#[derive(Debug, Clone)]
pub struct DiskInventoryItem {
    pub device: String,
    pub structure: String,
    pub volume_kind: String,
    pub filesystem: String,
    pub filesystem_family: String,
    pub transport: String,
    pub model: String,
    pub protocol: String,
    pub media: String,
    pub mount_point: String,
    pub mount_points: Vec<String>,
    pub logical_stack: Vec<String>,
}

pub open spec fn strs(v: Seq<String>) -> Seq<Seq<char>> {
    v.map_values(|s: String| s@)
}

/// Strictly increasing in code-point order: sorted, no repeats.
pub open spec fn sorted_strict(s: Seq<Seq<char>>) -> bool {
    forall|i: int, j: int| 0 <= i < j < s.len() ==> text_lt(#[trigger] s[i], #[trigger] s[j])
}

/// The values of `values`, sorted, each once.
pub fn unique_sorted(values: Vec<String>) -> (r: Vec<String>)
    ensures
        sorted_strict(strs(r@)),
        forall|x: Seq<char>| #[trigger] strs(r@).contains(x) <==> strs(values@).contains(x),
{
    let mut out: Vec<String> = Vec::new();
    let mut i: usize = 0;
    while i < values.len()
        invariant
            i <= values.len(),
            sorted_strict(strs(out@)),
            forall|x: Seq<char>|
                #[trigger] strs(out@).contains(x) <==> strs(values@.take(i as int)).contains(x),
        decreases values.len() - i,
    {
        let v = values[i].clone();
        let ghost vv = v@;
        let ghost before = strs(out@);
        // first position whose value is not below `v`
        let mut pos: usize = 0;
        while pos < out.len() && text_lt_exec(out[pos].as_str(), v.as_str())
            invariant
                pos <= out.len(),
                before == strs(out@),
                vv == v@,
                forall|k: int| 0 <= k < pos ==> text_lt(#[trigger] before[k], vv),
            decreases out.len() - pos,
        {
            assert(before[pos as int] == out@[pos as int]@);
            pos += 1;
        }
        let dup = pos < out.len() && str_eq(out[pos].as_str(), v.as_str());
        if !dup {
            out.insert(pos, v);
            let ghost after = strs(out@);
            assert(after =~= before.take(pos as int).push(vv) + before.skip(pos as int));
            proof {
                if pos < before.len() {
                    assert(before[pos as int] == out@[pos as int + 1]@);
                    lemma_text_lt_order(before[pos as int], vv);
                }
                assert forall|a: int, b: int| 0 <= a < b < after.len() implies text_lt(
                    #[trigger] after[a],
                    #[trigger] after[b],
                ) by {
                    if a < pos && b == pos {
                    } else if a < pos && b > pos {
                        assert(after[b] == before[b - 1]);
                        if pos < before.len() {
                            lemma_text_lt_trans(before[a], vv, before[pos as int]);
                        }
                        if b - 1 > pos {
                            lemma_text_lt_trans(before[a], before[pos as int], before[b - 1]);
                        }
                    } else if a == pos {
                        assert(after[b] == before[b - 1]);
                        if b - 1 > pos {
                            lemma_text_lt_trans(vv, before[pos as int], before[b - 1]);
                        }
                    } else if a > pos {
                        assert(after[a] == before[a - 1]);
                        assert(after[b] == before[b - 1]);
                    }
                }
            }
        }
        proof {
            let t = strs(values@.take(i + 1));
            assert(t =~= strs(values@.take(i as int)).push(vv));
            assert forall|x: Seq<char>| #[trigger] strs(out@).contains(x) <==> t.contains(x) by {
                if x == vv {
                    if dup {
                        assert(strs(out@)[pos as int] == x);
                    } else {
                        assert(strs(out@)[pos as int] == x);
                    }
                    assert(t[i as int] == x);
                } else {
                    if strs(out@).contains(x) {
                        let k = choose|k: int| 0 <= k < strs(out@).len() && strs(out@)[k] == x;
                        if !dup {
                            if k < pos {
                                assert(before[k] == x);
                            } else {
                                assert(k != pos);
                                assert(before[k - 1] == x);
                            }
                        }
                        assert(before.contains(x));
                        let j = choose|j: int|
                            0 <= j < strs(values@.take(i as int)).len() && strs(
                                values@.take(i as int),
                            )[j] == x;
                        assert(t[j] == x);
                    }
                    if t.contains(x) {
                        let j = choose|j: int| 0 <= j < t.len() && t[j] == x;
                        assert(j != i);
                        assert(strs(values@.take(i as int))[j] == x);
                        assert(before.contains(x));
                        let k = choose|k: int| 0 <= k < before.len() && before[k] == x;
                        if !dup {
                            if k < pos {
                                assert(strs(out@)[k] == x);
                            } else {
                                assert(strs(out@)[k + 1] == x);
                            }
                        } else {
                            assert(strs(out@)[k] == x);
                        }
                    }
                }
            }
        }
        i += 1;
    }
    assert(values@.take(values.len() as int) =~= values@);
    out
}


// ─── Disk groups ────────────────────────────────────────────────────────────
/// The device that a disk is grouped under: the first layer of its logical
/// stack when there is one and it is not empty, else the disk itself.
pub open spec fn root_spec(it: DiskInventoryItem) -> Seq<char> {
    if it.logical_stack@.len() > 0 && it.logical_stack@[0]@.len() > 0 {
        it.logical_stack@[0]@
    } else {
        it.device@
    }
}

pub fn group_root(it: &DiskInventoryItem) -> (r: String)
    ensures
        r@ == root_spec(*it),
{
    if it.logical_stack.len() > 0 && !it.logical_stack[0].as_str().is_empty() {
        it.logical_stack[0].clone()
    } else {
        it.device.clone()
    }
}

/// The lists that a group gathers from its disks.
#[derive(Debug, Clone, Copy, PartialEq, Eq, Structural)]
pub enum GroupList {
    Members,
    Mounted,
    Filesystems,
    VolumeKinds,
}

/// What a disk adds to a list of its group: every disk its name; a mounted
/// disk (with a mount point) its name to the mounted ones; its filesystem
/// and its volume kind when they are named.
pub open spec fn item_gives(it: DiskInventoryItem, which: GroupList) -> Option<Seq<char>> {
    match which {
        GroupList::Members => Some(it.device@),
        GroupList::Mounted => if it.mount_point@.len() > 0 || it.mount_points@.len() > 0 {
            Some(it.device@)
        } else {
            None
        },
        GroupList::Filesystems => if it.filesystem@.len() > 0 {
            Some(it.filesystem@)
        } else {
            None
        },
        GroupList::VolumeKinds => if it.volume_kind@.len() > 0 {
            Some(it.volume_kind@)
        } else {
            None
        },
    }
}

/// Whether a disk of the group of `root` adds `x` to list `which`.
pub open spec fn group_has(
    items: Seq<DiskInventoryItem>,
    root: Seq<char>,
    which: GroupList,
    x: Seq<char>,
) -> bool {
    exists|i: int|
        0 <= i < items.len() && root_spec(items[i]) == root && #[trigger] item_gives(items[i], which)
            == Some(x)
}

fn item_gives_exec(it: &DiskInventoryItem, which: GroupList) -> (r: Option<String>)
    ensures
        match r {
            Some(s) => item_gives(*it, which) == Some(s@),
            None => item_gives(*it, which) is None,
        },
{
    match which {
        GroupList::Members => Some(it.device.clone()),
        GroupList::Mounted => if !it.mount_point.as_str().is_empty() || it.mount_points.len() > 0 {
            Some(it.device.clone())
        } else {
            None
        },
        GroupList::Filesystems => if !it.filesystem.as_str().is_empty() {
            Some(it.filesystem.clone())
        } else {
            None
        },
        GroupList::VolumeKinds => if !it.volume_kind.as_str().is_empty() {
            Some(it.volume_kind.clone())
        } else {
            None
        },
    }
}

/// Everything that the disks of the group of `root` add to list `which`.
fn group_values(items: &Vec<DiskInventoryItem>, root: &str, which: GroupList) -> (r: Vec<String>)
    ensures
        forall|x: Seq<char>| #[trigger] strs(r@).contains(x) <==> group_has(items@, root@, which, x),
{
    let mut out: Vec<String> = Vec::new();
    let mut i: usize = 0;
    while i < items.len()
        invariant
            i <= items.len(),
            forall|x: Seq<char>|
                #[trigger] strs(out@).contains(x) <==> group_has(items@.take(i as int), root@, which, x),
        decreases items.len() - i,
    {
        let ghost before = strs(out@);
        let ghost t = items@.take(i + 1);
        assert forall|k: int| 0 <= k < i implies #[trigger] t[k] == items@.take(i as int)[k] by {}
        let r = group_root(&items[i]);
        if str_eq(r.as_str(), root) {
            match item_gives_exec(&items[i], which) {
                Some(v) => {
                    out.push(v);
                },
                None => {},
            }
        }
        proof {
            assert forall|x: Seq<char>| #[trigger] strs(out@).contains(x) <==> group_has(
                t,
                root@,
                which,
                x,
            ) by {
                if strs(out@).contains(x) {
                    let k = choose|k: int| 0 <= k < strs(out@).len() && strs(out@)[k] == x;
                    if k < before.len() {
                        assert(before[k] == x);
                        assert(before.contains(x));
                        assert(group_has(items@.take(i as int), root@, which, x));
                        let j = choose|j: int|
                            0 <= j < items@.take(i as int).len() && root_spec(
                                items@.take(i as int)[j],
                            ) == root@ && #[trigger] item_gives(items@.take(i as int)[j], which)
                                == Some(x);
                        assert(t[j] == items@.take(i as int)[j]);
                    } else {
                        assert(t[i as int] == items@[i as int]);
                        assert(item_gives(t[i as int], which) == Some(x));
                    }
                }
                if group_has(t, root@, which, x) {
                    let j = choose|j: int|
                        0 <= j < t.len() && root_spec(t[j]) == root@ && #[trigger] item_gives(
                            t[j],
                            which,
                        ) == Some(x);
                    if j < i {
                        assert(items@.take(i as int)[j] == t[j]);
                        assert(group_has(items@.take(i as int), root@, which, x));
                        assert(before.contains(x));
                        let k = choose|k: int| 0 <= k < before.len() && before[k] == x;
                        assert(strs(out@)[k] == x);
                    } else {
                        assert(t[j] == items@[i as int]);
                        assert(strs(out@)[strs(out@).len() - 1] == x);
                    }
                }
            }
        }
        i += 1;
    }
    assert(items@.take(items.len() as int) =~= items@);
    out
}

/// The first of the first `n` disks in the group of `root` (and, with
/// `own`, named `root` itself); -1 when there is none.
pub open spec fn first_member(items: Seq<DiskInventoryItem>, root: Seq<char>, own: bool, n: int) -> int
    decreases n,
{
    if n <= 0 {
        -1
    } else {
        let f = first_member(items, root, own, n - 1);
        if f >= 0 {
            f
        } else if root_spec(items[n - 1]) == root && (!own || items[n - 1].device@ == root) {
            n - 1
        } else {
            -1
        }
    }
}

pub open spec fn is_member(it: DiskInventoryItem, root: Seq<char>, own: bool) -> bool {
    root_spec(it) == root && (!own || it.device@ == root)
}

proof fn lemma_first_member(items: Seq<DiskInventoryItem>, root: Seq<char>, own: bool, n: int)
    requires
        0 <= n <= items.len(),
    ensures
        first_member(items, root, own, n) == -1 || (0 <= first_member(items, root, own, n) < n
            && is_member(items[first_member(items, root, own, n)], root, own)),
        (exists|i: int| 0 <= i < n && #[trigger] is_member(items[i], root, own)) ==> first_member(
            items,
            root,
            own,
            n,
        ) >= 0,
        forall|i: int|
            0 <= i < n && first_member(items, root, own, n) >= 0 && i < first_member(
                items,
                root,
                own,
                n,
            ) ==> !#[trigger] is_member(items[i], root, own),
        first_member(items, root, own, n) == -1 ==> forall|i: int|
            0 <= i < n ==> !#[trigger] is_member(items[i], root, own),
    decreases n,
{
    if n > 0 {
        lemma_first_member(items, root, own, n - 1);
    }
}

/// The disk that describes a group: the disk named like the group, else
/// its first disk.
pub open spec fn root_index(items: Seq<DiskInventoryItem>, root: Seq<char>) -> int {
    let a = first_member(items, root, true, items.len() as int);
    if a >= 0 {
        a
    } else {
        first_member(items, root, false, items.len() as int)
    }
}

fn root_member(items: &Vec<DiskInventoryItem>, root: &str) -> (r: usize)
    requires
        exists|i: int| 0 <= i < items.len() && #[trigger] root_spec(items@[i]) == root@,
    ensures
        r == root_index(items@, root@),
        r < items.len(),
{
    let ghost n = items.len() as int;
    proof {
        lemma_first_member(items@, root@, true, n);
        lemma_first_member(items@, root@, false, n);
        let i = choose|i: int| 0 <= i < items.len() && #[trigger] root_spec(items@[i]) == root@;
        assert(is_member(items@[i], root@, false));
    }
    let mut i: usize = 0;
    while i < items.len()
        invariant
            i <= items.len(),
            n == items.len(),
            forall|k: int| 0 <= k < i ==> !#[trigger] is_member(items@[k], root@, true),
        decreases items.len() - i,
    {
        let r = group_root(&items[i]);
        if str_eq(r.as_str(), root) && str_eq(items[i].device.as_str(), root) {
            assert(is_member(items@[i as int], root@, true));
            proof {
                lemma_first_member(items@, root@, true, n);
                let f = first_member(items@, root@, true, n);
                if f < i {
                    assert(!is_member(items@[f], root@, true));
                }
            }
            return i;
        }
        i += 1;
    }
    let mut j: usize = 0;
    while j < items.len()
        invariant
            j <= items.len(),
            n == items.len(),
            forall|k: int| 0 <= k < items.len() ==> !#[trigger] is_member(items@[k], root@, true),
            forall|k: int| 0 <= k < j ==> !#[trigger] is_member(items@[k], root@, false),
            first_member(items@, root@, false, n) >= 0,
        decreases items.len() - j,
    {
        let r = group_root(&items[j]);
        if str_eq(r.as_str(), root) {
            assert(is_member(items@[j as int], root@, false));
            proof {
                lemma_first_member(items@, root@, true, n);
                lemma_first_member(items@, root@, false, n);
                let f = first_member(items@, root@, false, n);
                if f < j {
                    assert(!is_member(items@[f], root@, false));
                }
            }
            return j;
        }
        j += 1;
    }
    j
}

pub open spec fn remote_spec(it: DiskInventoryItem) -> bool {
    it.filesystem_family@ == "remote"@ || it.structure@ == "remote-mount"@
}

/// `s` lists, sorted and once each, what the group of `root` adds to
/// list `which`.
pub open spec fn lists(s: Seq<String>, items: Seq<DiskInventoryItem>, root: Seq<char>, which: GroupList) -> bool {
    &&& sorted_strict(strs(s))
    &&& forall|x: Seq<char>| #[trigger] strs(s).contains(x) <==> group_has(items, root, which, x)
}

/// Whether `g` is the group of `root` among `items`.
pub open spec fn group_ok(g: DiskInventoryGroupView, items: Seq<DiskInventoryItem>, root: Seq<char>) -> bool {
    let k = root_index(items, root);
    &&& 0 <= k < items.len()
    &&& g.root_device@ == root
    &&& g.transport@ == items[k].transport@
    &&& g.model@ == items[k].model@
    &&& g.protocol@ == items[k].protocol@
    &&& g.media@ == items[k].media@
    &&& g.remote == remote_spec(items[k])
    &&& lists(g.members@, items, root, GroupList::Members)
    &&& lists(g.mounted_devices@, items, root, GroupList::Mounted)
    &&& lists(g.filesystems@, items, root, GroupList::Filesystems)
    &&& lists(g.volume_kinds@, items, root, GroupList::VolumeKinds)
}

pub open spec fn group_roots(gs: Seq<DiskInventoryGroupView>) -> Seq<Seq<char>> {
    gs.map_values(|g: DiskInventoryGroupView| g.root_device@)
}

/// Groups the disks by the device that holds them: one group per root,
/// ordered by root name.
pub fn build_disk_groups(items: &Vec<DiskInventoryItem>) -> (r: Vec<DiskInventoryGroupView>)
    ensures
        sorted_strict(group_roots(r@)),
        forall|x: Seq<char>|
            #[trigger] group_roots(r@).contains(x) <==> exists|i: int|
                0 <= i < items.len() && #[trigger] root_spec(items@[i]) == x,
        forall|k: int| 0 <= k < r.len() ==> group_ok(#[trigger] r@[k], items@, r@[k].root_device@),
{
    let mut all_roots: Vec<String> = Vec::new();
    let mut i: usize = 0;
    while i < items.len()
        invariant
            i <= items.len(),
            all_roots.len() == i,
            forall|k: int| 0 <= k < i ==> #[trigger] all_roots@[k]@ == root_spec(items@[k]),
        decreases items.len() - i,
    {
        all_roots.push(group_root(&items[i]));
        i += 1;
    }
    let ghost raw = strs(all_roots@);
    assert forall|x: Seq<char>| #[trigger] raw.contains(x) <==> exists|i: int|
        0 <= i < items.len() && #[trigger] root_spec(items@[i]) == x by {
        if raw.contains(x) {
            let k = choose|k: int| 0 <= k < raw.len() && raw[k] == x;
            assert(root_spec(items@[k]) == x);
        }
        if exists|i: int| 0 <= i < items.len() && #[trigger] root_spec(items@[i]) == x {
            let i = choose|i: int| 0 <= i < items.len() && #[trigger] root_spec(items@[i]) == x;
            assert(raw[i] == x);
        }
    }
    let roots = unique_sorted(all_roots);
    let mut groups: Vec<DiskInventoryGroupView> = Vec::new();
    let mut k: usize = 0;
    while k < roots.len()
        invariant
            k <= roots.len(),
            groups.len() == k,
            sorted_strict(strs(roots@)),
            forall|x: Seq<char>|
                #[trigger] strs(roots@).contains(x) <==> exists|i: int|
                    0 <= i < items.len() && #[trigger] root_spec(items@[i]) == x,
            forall|j: int| 0 <= j < k ==> #[trigger] groups@[j].root_device@ == roots@[j]@,
            forall|j: int| 0 <= j < k ==> group_ok(#[trigger] groups@[j], items@, groups@[j].root_device@),
        decreases roots.len() - k,
    {
        let root = roots[k].as_str();
        assert(strs(roots@)[k as int] == root@);
        assert(strs(roots@).contains(root@));
        let idx = root_member(items, root);
        let ri = &items[idx];
        let remote = str_eq(ri.filesystem_family.as_str(), "remote") || str_eq(
            ri.structure.as_str(),
            "remote-mount",
        );
        let g = DiskInventoryGroupView {
            root_device: roots[k].clone(),
            transport: ri.transport.clone(),
            model: ri.model.clone(),
            protocol: ri.protocol.clone(),
            media: ri.media.clone(),
            remote,
            members: unique_sorted(group_values(items, root, GroupList::Members)),
            mounted_devices: unique_sorted(group_values(items, root, GroupList::Mounted)),
            filesystems: unique_sorted(group_values(items, root, GroupList::Filesystems)),
            volume_kinds: unique_sorted(group_values(items, root, GroupList::VolumeKinds)),
        };
        assert(group_ok(g, items@, g.root_device@));
        groups.push(g);
        k += 1;
    }
    assert(group_roots(groups@) =~= strs(roots@));
    groups
}

// ─── Inventory ──────────────────────────────────────────────────────────────
/// What the inventory reads of one disk of a snapshot.
#[derive(Debug, Clone)]
pub struct SnapshotDisk {
    pub device: String,
    pub parent: String,
    pub structure: String,
    pub structure_hint: String,
    pub volume_kind: String,
    pub filesystem: String,
    pub filesystem_family: String,
    pub label: String,
    pub uuid: String,
    pub part_uuid: String,
    pub model: String,
    pub serial: String,
    pub protocol_hint: String,
    pub media_hint: String,
    pub reference: String,
    pub scheduler: String,
    pub rotational: bool,
    pub removable: bool,
    pub read_only: bool,
    pub mount_point: String,
    pub mount_points: Vec<String>,
    pub logical_stack: Vec<String>,
    pub slaves: Vec<String>,
    pub holders: Vec<String>,
    pub children: Vec<String>,
}

/// One disk of the inventory; `metrics` is the snapshot disk whose space
/// figures go with it.
#[derive(Debug, Clone)]
pub struct DiskInventoryView {
    pub device: String,
    pub parent: String,
    pub structure: String,
    pub volume_kind: String,
    pub filesystem: String,
    pub filesystem_family: String,
    pub label: String,
    pub uuid: String,
    pub part_uuid: String,
    pub model: String,
    pub serial: String,
    pub transport: String,
    pub reference: String,
    pub scheduler: String,
    pub rotational: bool,
    pub removable: bool,
    pub read_only: bool,
    pub mount_point: String,
    pub mount_points: Vec<String>,
    pub logical_stack: Vec<String>,
    pub slaves: Vec<String>,
    pub holders: Vec<String>,
    pub children: Vec<String>,
    pub protocol: String,
    pub media: String,
    pub metrics: Option<usize>,
}

/// The inventory of a host.
#[derive(Debug, Clone)]
pub struct InventoryResponse {
    pub host: Option<InventoryHost>,
    pub disks: Vec<DiskInventoryView>,
    pub groups: Vec<DiskInventoryGroupView>,
    pub networks: Vec<NetworkInventoryView>,
}

/// The last snapshot disk named `device` (a later disk of one name wins).
pub open spec fn last_disk(ds: Seq<SnapshotDisk>, device: Seq<char>) -> Option<int>
    decreases ds.len(),
{
    if ds.len() == 0 {
        None
    } else if ds.last().device@ == device {
        Some(ds.len() - 1)
    } else {
        last_disk(ds.drop_last(), device)
    }
}

/// An inventory disk built from a snapshot disk alone.
pub open spec fn from_snapshot(v: DiskInventoryView, d: SnapshotDisk, k: int) -> bool {
    &&& v.device@ == d.device@
    &&& v.parent@ == d.parent@
    &&& v.structure@ == (if d.structure@.len() == 0 {
        d.structure_hint@
    } else {
        d.structure@
    })
    &&& v.volume_kind@ == d.volume_kind@
    &&& v.filesystem@ == d.filesystem@
    &&& v.filesystem_family@ == d.filesystem_family@
    &&& v.label@ == d.label@
    &&& v.uuid@ == d.uuid@
    &&& v.part_uuid@ == d.part_uuid@
    &&& v.model@ == d.model@
    &&& v.serial@ == d.serial@
    &&& v.transport@ == d.protocol_hint@
    &&& v.reference@ == d.reference@
    &&& v.scheduler@ == d.scheduler@
    &&& v.rotational == d.rotational
    &&& v.removable == d.removable
    &&& v.read_only == d.read_only
    &&& v.mount_point@ == d.mount_point@
    &&& strs(v.mount_points@) == strs(d.mount_points@)
    &&& strs(v.logical_stack@) == strs(d.logical_stack@)
    &&& strs(v.slaves@) == strs(d.slaves@)
    &&& strs(v.holders@) == strs(d.holders@)
    &&& strs(v.children@) == strs(d.children@)
    &&& v.protocol@ == d.protocol_hint@
    &&& v.media@ == d.media_hint@
    &&& v.metrics == Some(k as usize)
}

pub open spec fn hint_or(m: Option<SnapshotDisk>, own: Seq<char>, pick: spec_fn(SnapshotDisk) -> Seq<char>) -> Seq<char> {
    if own.len() == 0 {
        match m {
            Some(d) => pick(d),
            None => Seq::empty(),
        }
    } else {
        own
    }
}

pub open spec fn list_or(m: Option<SnapshotDisk>, own: Seq<String>, pick: spec_fn(SnapshotDisk) -> Seq<String>) -> Seq<Seq<char>> {
    if own.len() == 0 {
        match m {
            Some(d) => strs(pick(d)),
            None => Seq::empty(),
        }
    } else {
        strs(own)
    }
}

/// An inventory disk built from a platform inventory entry and the snapshot
/// disk of the same name, if any (`m`, at `k`): the entry's own fields,
/// the snapshot's where the entry leaves structure, volume kind, mount
/// points or logical stack empty, and the snapshot's mount point, protocol
/// and media.
pub open spec fn from_raw(v: DiskInventoryView, r: RawDiskInventory, m: Option<SnapshotDisk>, k: Option<int>) -> bool {
    &&& v.device@ == r.device@
    &&& v.parent@ == match r.parent {
        Some(p) => p@,
        None => Seq::empty(),
    }
    &&& v.structure@ == hint_or(m, r.structure@, |d: SnapshotDisk| d.structure_hint@)
    &&& v.volume_kind@ == hint_or(m, r.volume_kind@, |d: SnapshotDisk| d.volume_kind@)
    &&& v.filesystem@ == r.filesystem@
    &&& v.filesystem_family@ == r.filesystem_family@
    &&& v.label@ == r.label@
    &&& v.uuid@ == r.uuid@
    &&& v.part_uuid@ == r.part_uuid@
    &&& v.model@ == r.model@
    &&& v.serial@ == r.serial@
    &&& v.transport@ == r.transport@
    &&& v.reference@ == r.reference@
    &&& v.scheduler@ == r.scheduler@
    &&& v.rotational == (r.rotational == Some(true))
    &&& v.removable == (r.removable == Some(true))
    &&& v.read_only == (r.read_only == Some(true))
    &&& v.mount_point@ == match m {
        Some(d) if d.mount_point@.len() > 0 => d.mount_point@,
        _ => if r.mount_points@.len() > 0 {
            r.mount_points@[0]@
        } else {
            Seq::empty()
        },
    }
    &&& strs(v.mount_points@) == list_or(m, r.mount_points@, |d: SnapshotDisk| d.mount_points@)
    &&& strs(v.logical_stack@) == list_or(m, r.logical_stack@, |d: SnapshotDisk| d.logical_stack@)
    &&& strs(v.slaves@) == strs(r.slaves@)
    &&& strs(v.holders@) == strs(r.holders@)
    &&& strs(v.children@) == strs(r.children@)
    &&& v.protocol@ == match m {
        Some(d) => d.protocol_hint@,
        None => r.transport@,
    }
    &&& v.media@ == match m {
        Some(d) => d.media_hint@,
        None => Seq::empty(),
    }
    &&& v.metrics == match k {
        Some(i) => Some(i as usize),
        None => None,
    }
}

/// What grouping reads of an inventory disk.
pub open spec fn item_matches(it: DiskInventoryItem, v: DiskInventoryView) -> bool {
    &&& it.device@ == v.device@
    &&& it.structure@ == v.structure@
    &&& it.volume_kind@ == v.volume_kind@
    &&& it.filesystem@ == v.filesystem@
    &&& it.filesystem_family@ == v.filesystem_family@
    &&& it.transport@ == v.transport@
    &&& it.model@ == v.model@
    &&& it.protocol@ == v.protocol@
    &&& it.media@ == v.media@
    &&& it.mount_point@ == v.mount_point@
    &&& strs(it.mount_points@) == strs(v.mount_points@)
    &&& strs(it.logical_stack@) == strs(v.logical_stack@)
}

pub open spec fn items_match(items: Seq<DiskInventoryItem>, vs: Seq<DiskInventoryView>) -> bool {
    &&& items.len() == vs.len()
    &&& forall|k: int| 0 <= k < vs.len() ==> item_matches(#[trigger] items[k], vs[k])
}

/// `gs` are the groups of `items`, as `build_disk_groups` makes them.
pub open spec fn grouped_by(gs: Seq<DiskInventoryGroupView>, items: Seq<DiskInventoryItem>) -> bool {
    &&& sorted_strict(group_roots(gs))
    &&& forall|x: Seq<char>|
        #[trigger] group_roots(gs).contains(x) <==> exists|i: int|
            0 <= i < items.len() && #[trigger] root_spec(items[i]) == x
    &&& forall|k: int| 0 <= k < gs.len() ==> group_ok(#[trigger] gs[k], items, gs[k].root_device@)
}

fn copy_strings(v: &Vec<String>) -> (r: Vec<String>)
    ensures
        strs(r@) == strs(v@),
{
    let mut r: Vec<String> = Vec::new();
    let mut i: usize = 0;
    while i < v.len()
        invariant
            i <= v.len(),
            r@.len() == i,
            forall|k: int| 0 <= k < i ==> (#[trigger] r@[k])@ == v@[k]@,
        decreases v.len() - i,
    {
        let c = v[i].clone();
        r.push(c);
        i += 1;
    }
    assert(strs(r@) =~= strs(v@));
    r
}

fn view_from_snapshot(d: &SnapshotDisk, k: usize) -> (v: DiskInventoryView)
    ensures
        from_snapshot(v, *d, k as int),
{
    DiskInventoryView {
        device: d.device.clone(),
        parent: d.parent.clone(),
        structure: if d.structure.as_str().is_empty() {
            d.structure_hint.clone()
        } else {
            d.structure.clone()
        },
        volume_kind: d.volume_kind.clone(),
        filesystem: d.filesystem.clone(),
        filesystem_family: d.filesystem_family.clone(),
        label: d.label.clone(),
        uuid: d.uuid.clone(),
        part_uuid: d.part_uuid.clone(),
        model: d.model.clone(),
        serial: d.serial.clone(),
        transport: d.protocol_hint.clone(),
        reference: d.reference.clone(),
        scheduler: d.scheduler.clone(),
        rotational: d.rotational,
        removable: d.removable,
        read_only: d.read_only,
        mount_point: d.mount_point.clone(),
        mount_points: copy_strings(&d.mount_points),
        logical_stack: copy_strings(&d.logical_stack),
        slaves: copy_strings(&d.slaves),
        holders: copy_strings(&d.holders),
        children: copy_strings(&d.children),
        protocol: d.protocol_hint.clone(),
        media: d.media_hint.clone(),
        metrics: Some(k),
    }
}

fn find_last_disk(ds: &Vec<SnapshotDisk>, device: &str) -> (r: Option<usize>)
    ensures
        match r {
            Some(k) => last_disk(ds@, device@) == Some(k as int) && k < ds.len(),
            None => last_disk(ds@, device@) is None,
        },
{
    let mut i: usize = ds.len();
    assert(ds@.take(i as int) =~= ds@);
    while i > 0
        invariant
            i <= ds.len(),
            last_disk(ds@, device@) == last_disk(ds@.take(i as int), device@),
        decreases i,
    {
        let ghost t = ds@.take(i as int);
        assert(t.last() == ds@[i - 1]);
        assert(t.drop_last() =~= ds@.take(i - 1));
        if str_eq(ds[i - 1].device.as_str(), device) {
            return Some(i - 1);
        }
        i -= 1;
    }
    assert(ds@.take(0) =~= Seq::<SnapshotDisk>::empty());
    None
}

fn text_or(own: &String, m: Option<&SnapshotDisk>, pick_structure: bool) -> (r: String)
    ensures
        r@ == if pick_structure {
            hint_or(
                match m {
                    Some(d) => Some(*d),
                    None => None,
                },
                own@,
                |d: SnapshotDisk| d.structure_hint@,
            )
        } else {
            hint_or(
                match m {
                    Some(d) => Some(*d),
                    None => None,
                },
                own@,
                |d: SnapshotDisk| d.volume_kind@,
            )
        },
{
    if own.as_str().is_empty() {
        match m {
            Some(d) => if pick_structure {
                d.structure_hint.clone()
            } else {
                d.volume_kind.clone()
            },
            None => String::new(),
        }
    } else {
        own.clone()
    }
}

fn list_or_copy(own: &Vec<String>, m: Option<&SnapshotDisk>, pick_mounts: bool) -> (r: Vec<String>)
    ensures
        strs(r@) == if pick_mounts {
            list_or(
                match m {
                    Some(d) => Some(*d),
                    None => None,
                },
                own@,
                |d: SnapshotDisk| d.mount_points@,
            )
        } else {
            list_or(
                match m {
                    Some(d) => Some(*d),
                    None => None,
                },
                own@,
                |d: SnapshotDisk| d.logical_stack@,
            )
        },
{
    if own.len() == 0 {
        match m {
            Some(d) => if pick_mounts {
                copy_strings(&d.mount_points)
            } else {
                copy_strings(&d.logical_stack)
            },
            None => {
                let r: Vec<String> = Vec::new();
                assert(strs(r@) =~= Seq::<Seq<char>>::empty());
                r
            },
        }
    } else {
        copy_strings(own)
    }
}

fn view_from_raw(r: &RawDiskInventory, ds: &Vec<SnapshotDisk>) -> (v: DiskInventoryView)
    ensures
        from_raw(
            v,
            *r,
            match last_disk(ds@, r.device@) {
                Some(k) => Some(ds@[k]),
                None => None,
            },
            last_disk(ds@, r.device@),
        ),
{
    let k = find_last_disk(ds, r.device.as_str());
    let m: Option<&SnapshotDisk> = match k {
        Some(i) => Some(&ds[i]),
        None => None,
    };
    let mount_point = match m {
        Some(d) if !d.mount_point.as_str().is_empty() => d.mount_point.clone(),
        _ => if r.mount_points.len() > 0 {
            r.mount_points[0].clone()
        } else {
            String::new()
        },
    };
    DiskInventoryView {
        device: r.device.clone(),
        parent: match &r.parent {
            Some(p) => p.clone(),
            None => String::new(),
        },
        structure: text_or(&r.structure, m, true),
        volume_kind: text_or(&r.volume_kind, m, false),
        filesystem: r.filesystem.clone(),
        filesystem_family: r.filesystem_family.clone(),
        label: r.label.clone(),
        uuid: r.uuid.clone(),
        part_uuid: r.part_uuid.clone(),
        model: r.model.clone(),
        serial: r.serial.clone(),
        transport: r.transport.clone(),
        reference: r.reference.clone(),
        scheduler: r.scheduler.clone(),
        rotational: r.rotational == Some(true),
        removable: r.removable == Some(true),
        read_only: r.read_only == Some(true),
        mount_point,
        mount_points: list_or_copy(&r.mount_points, m, true),
        logical_stack: list_or_copy(&r.logical_stack, m, false),
        slaves: copy_strings(&r.slaves),
        holders: copy_strings(&r.holders),
        children: copy_strings(&r.children),
        protocol: match m {
            Some(d) => d.protocol_hint.clone(),
            None => r.transport.clone(),
        },
        media: match m {
            Some(d) => d.media_hint.clone(),
            None => String::new(),
        },
        metrics: k,
    }
}

fn item_of(v: &DiskInventoryView) -> (it: DiskInventoryItem)
    ensures
        item_matches(it, *v),
{
    DiskInventoryItem {
        device: v.device.clone(),
        structure: v.structure.clone(),
        volume_kind: v.volume_kind.clone(),
        filesystem: v.filesystem.clone(),
        filesystem_family: v.filesystem_family.clone(),
        transport: v.transport.clone(),
        model: v.model.clone(),
        protocol: v.protocol.clone(),
        media: v.media.clone(),
        mount_point: v.mount_point.clone(),
        mount_points: copy_strings(&v.mount_points),
        logical_stack: copy_strings(&v.logical_stack),
    }
}

/// The inventory of a host: its identity; its disks, from the platform's
/// inventory when it has one (each merged with the snapshot disk of its
/// name) and else from the snapshot's disks; the groups of those disks; and
/// the interfaces.
pub fn build_inventory(
    host: Option<SystemMetrics>,
    disks: &Vec<SnapshotDisk>,
    raw: &Vec<RawDiskInventory>,
    networks: Vec<NetworkInventoryView>,
) -> (r: InventoryResponse)
    ensures
        match host {
            Some(s) => r.host matches Some(h) && h.hostname@ == s.hostname@ && h.os_name@ == s.os_name@
                && h.os_version@ == s.os_version@ && h.kernel_version@ == s.kernel_version@
                && h.architecture@ == s.architecture@,
            None => r.host is None,
        },
        raw.len() == 0 ==> r.disks.len() == disks.len() && forall|k: int|
            0 <= k < disks.len() ==> from_snapshot(#[trigger] r.disks@[k], disks@[k], k),
        raw.len() > 0 ==> r.disks.len() == raw.len() && forall|k: int|
            0 <= k < raw.len() ==> from_raw(
                #[trigger] r.disks@[k],
                raw@[k],
                match last_disk(disks@, raw@[k].device@) {
                    Some(i) => Some(disks@[i]),
                    None => None,
                },
                last_disk(disks@, raw@[k].device@),
            ),
        exists|items: Seq<DiskInventoryItem>| #[trigger] items_match(items, r.disks@) && grouped_by(r.groups@, items),
        r.networks@ == networks@,
{
    let host = match host {
        Some(s) => Some(inventory_host(&s)),
        None => None,
    };
    let mut views: Vec<DiskInventoryView> = Vec::new();
    if raw.len() == 0 {
        let mut k: usize = 0;
        while k < disks.len()
            invariant
                k <= disks.len(),
                raw.len() == 0,
                views.len() == k,
                forall|j: int| 0 <= j < k ==> from_snapshot(#[trigger] views@[j], disks@[j], j),
            decreases disks.len() - k,
        {
            views.push(view_from_snapshot(&disks[k], k));
            k += 1;
        }
    } else {
        let mut k: usize = 0;
        while k < raw.len()
            invariant
                k <= raw.len(),
                views.len() == k,
                forall|j: int|
                    0 <= j < k ==> from_raw(
                        #[trigger] views@[j],
                        raw@[j],
                        match last_disk(disks@, raw@[j].device@) {
                            Some(i) => Some(disks@[i]),
                            None => None,
                        },
                        last_disk(disks@, raw@[j].device@),
                    ),
            decreases raw.len() - k,
        {
            views.push(view_from_raw(&raw[k], disks));
            k += 1;
        }
    }
    let mut items: Vec<DiskInventoryItem> = Vec::new();
    let mut k: usize = 0;
    while k < views.len()
        invariant
            k <= views.len(),
            items.len() == k,
            forall|j: int| 0 <= j < k ==> item_matches(#[trigger] items@[j], views@[j]),
        decreases views.len() - k,
    {
        items.push(item_of(&views[k]));
        k += 1;
    }
    let groups = build_disk_groups(&items);
    assert(items_match(items@, views@) && grouped_by(groups@, items@));
    InventoryResponse { host, disks: views, groups, networks }
}

} // verus!
