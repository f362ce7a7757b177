//! Windows readings built from PowerShell output and Win32 values.
use vstd::prelude::*;
use crate::platform::api::{RawDiskStat, RawNetConnections, RawNetStat};
use crate::platform::macos::{bare_disk_stat, is_bare};
use crate::platform::mount_map::{keys_distinct, last_for, lookup, mount_map, pair_views};
use crate::text::{
    chars_eq_str, chars_of, lower_chars, lower_seq, parse_u32, parse_u32_spec, push_chars,
    push_str, str_eq, string_of, trim, trim_chars,
};

verus! {

broadcast use vstd::string::group_string_axioms;

/// `version (build N)`, or whichever of the two is not blank, or nothing;
/// both trimmed.
pub open spec fn version_build_spec(version: Seq<char>, build: Seq<char>) -> Seq<char> {
    let v = trim(version);
    let b = trim(build);
    if v.len() == 0 && b.len() == 0 {
        Seq::empty()
    } else if b.len() == 0 {
        v
    } else if v.len() == 0 {
        b
    } else {
        v + " (build "@ + b + seq![')']
    }
}

/// The Windows version line shown for the host.
pub fn format_version_and_build(version: &str, build: &str) -> (r: String)
    ensures
        r@ == version_build_spec(version@, build@),
{
    let v = trim_chars(&chars_of(version));
    let b = trim_chars(&chars_of(build));
    if v.len() == 0 && b.len() == 0 {
        String::new()
    } else if b.len() == 0 {
        string_of(&v)
    } else if v.len() == 0 {
        string_of(&b)
    } else {
        let mut out = string_of(&v);
        push_str(&mut out, " (build ");
        push_chars(&mut out, &b);
        push_str(&mut out, ")");
        proof {
            reveal_strlit(")");
        }
        assert(out@ =~= v@ + " (build "@ + b@ + seq![')']);
        out
    }
}

/// A 64-bit `FILETIME` from its high and low 32-bit halves.
pub fn filetime_to_u64(high: u32, low: u32) -> (r: u64)
    ensures
        r == high as nat * 0x1_0000_0000 + low as nat,
{
    let r = ((high as u64) << 32u64) | (low as u64);
    assert(((high as u64) << 32u64) | (low as u64) == (high as u64) * 0x1_0000_0000u64 + (low as u64))
        by (bit_vector);
    r
}

/// A count printed by a PowerShell `Measure-Object` command: the trimmed
/// output read as a `u32`.
pub fn powershell_number_u32(output: &str) -> (r: Option<u32>)
    ensures
        r == parse_u32_spec(trim(output@)),
{
    let t = trim_chars(&chars_of(output));
    parse_u32(&t)
}

/// TCP counts from the two PowerShell counts (absent counts are zero).
pub fn read_net_connections(total: Option<u32>, established: Option<u32>) -> (r: RawNetConnections)
    ensures
        r == (RawNetConnections {
            total: match total {
                Some(t) => t,
                None => 0,
            },
            established: match established {
                Some(e) => e,
                None => 0,
            },
            ..RawNetConnections::zero_spec()
        }),
{
    let mut r = RawNetConnections::zero();
    r.total = match total {
        Some(t) => t,
        None => 0,
    };
    r.established = match established {
        Some(e) => e,
        None => 0,
    };
    r
}

/// The page size that memory counts use on Windows.
pub fn page_size() -> (r: u64)
    ensures
        r == 4096,
{
    4096
}


// ─── Logical disks ──────────────────────────────────────────────────────────
/// A logical disk as `Win32_LogicalDisk` reports it: its drive, which is
/// also its mount point, and its sizes in bytes.
#[derive(Debug, Clone)]
pub struct DiskEntry {
    pub device: String,
    pub mount_point: String,
    pub total_bytes: u64,
    pub free_bytes: u64,
    pub used_bytes: u64,
}

/// The entry of one logical disk: none without a drive id; absent sizes
/// are zero, and the used size is what is not free.
pub fn disk_entry(device_id: Option<String>, size: Option<u64>, free_space: Option<u64>) -> (r: Option<DiskEntry>)
    ensures
        match r {
            Some(e) => device_id matches Some(d) && e.device@ == d@ && e.mount_point@ == d@
                && e.total_bytes == (match size {
                Some(x) => x,
                None => 0,
            }) && e.free_bytes == (match free_space {
                Some(x) => x,
                None => 0,
            }) && e.used_bytes == crate::text::sat_sub_spec(e.total_bytes, e.free_bytes),
            None => device_id is None,
        },
{
    match device_id {
        Some(d) => {
            let total = match size {
                Some(x) => x,
                None => 0,
            };
            let free = match free_space {
                Some(x) => x,
                None => 0,
            };
            Some(
                DiskEntry {
                    mount_point: d.clone(),
                    device: d,
                    total_bytes: total,
                    free_bytes: free,
                    used_bytes: total.saturating_sub(free),
                },
            )
        },
        None => None,
    }
}

pub open spec fn entry_pairs(es: Seq<DiskEntry>) -> Seq<(Seq<char>, Seq<char>)> {
    es.map_values(|e: DiskEntry| (e.device@, e.mount_point@))
}

/// Drive to mount point; a later entry of a drive wins.
pub fn read_mount_map(entries: &Vec<DiskEntry>) -> (r: Vec<(String, String)>)
    ensures
        keys_distinct(pair_views(r@)),
        forall|k: Seq<char>| #[trigger] lookup(pair_views(r@), k) == last_for(entry_pairs(entries@), k),
{
    let mut pairs: Vec<(String, String)> = Vec::new();
    let mut i: usize = 0;
    while i < entries.len()
        invariant
            i <= entries.len(),
            pair_views(pairs@) == entry_pairs(entries@).take(i as int),
        decreases entries.len() - i,
    {
        let ghost before = pair_views(pairs@);
        let d = entries[i].device.clone();
        let m = entries[i].mount_point.clone();
        pairs.push((d, m));
        assert(pair_views(pairs@) =~= before.push((d@, m@)));
        assert(entry_pairs(entries@)[i as int] == (d@, m@));
        assert(entry_pairs(entries@).take(i + 1) =~= entry_pairs(entries@).take(i as int).push(
            entry_pairs(entries@)[i as int],
        ));
        i += 1;
    }
    assert(entry_pairs(entries@).take(entries.len() as int) =~= entry_pairs(entries@));
    mount_map(&pairs)
}

/// One reading per logical disk, with no counters (Windows gives none here).
pub fn read_disks(entries: &Vec<DiskEntry>) -> (r: Vec<RawDiskStat>)
    ensures
        r@.len() == entries@.len(),
        forall|i: int| 0 <= i < r@.len() ==> (#[trigger] r@[i]).device@ == entries@[i].device@ && is_bare(
            r@[i],
        ),
{
    let mut out: Vec<RawDiskStat> = Vec::new();
    let mut i: usize = 0;
    while i < entries.len()
        invariant
            i <= entries.len(),
            out@.len() == i,
            forall|k: int| 0 <= k < i ==> (#[trigger] out@[k]).device@ == entries@[k].device@ && is_bare(
                out@[k],
            ),
        decreases entries.len() - i,
    {
        out.push(bare_disk_stat(entries[i].device.clone()));
        i += 1;
    }
    out
}

// ─── Network adapters ───────────────────────────────────────────────────────
/// The statistics of one adapter as `Get-NetAdapterStatistics` reports
/// them; absent values are `None`.
#[derive(Debug, Clone)]
pub struct AdapterStats {
    pub name: Option<String>,
    pub received_bytes: Option<u64>,
    pub sent_bytes: Option<u64>,
    pub received_unicast_packets: Option<u64>,
    pub sent_unicast_packets: Option<u64>,
    pub received_packet_errors: Option<u64>,
    pub outbound_packet_errors: Option<u64>,
    pub received_discarded_packets: Option<u64>,
    pub outbound_discarded_packets: Option<u64>,
}

pub open spec fn or_zero(x: Option<u64>) -> u64 {
    match x {
        Some(v) => v,
        None => 0,
    }
}

/// The name of an adapter, empty when absent.
pub open spec fn adapter_name(a: AdapterStats) -> Seq<char> {
    match a.name {
        Some(n) => n@,
        None => Seq::empty(),
    }
}

/// The reading of an adapter (absent counters are zero).
pub open spec fn adapter_reading(a: AdapterStats, s: RawNetStat) -> bool {
    &&& s.interface@ == adapter_name(a)
    &&& s.rx_bytes == or_zero(a.received_bytes)
    &&& s.rx_packets == or_zero(a.received_unicast_packets)
    &&& s.rx_errors == or_zero(a.received_packet_errors)
    &&& s.rx_dropped == or_zero(a.received_discarded_packets)
    &&& s.tx_bytes == or_zero(a.sent_bytes)
    &&& s.tx_packets == or_zero(a.sent_unicast_packets)
    &&& s.tx_errors == or_zero(a.outbound_packet_errors)
    &&& s.tx_dropped == or_zero(a.outbound_discarded_packets)
}

/// The adapters that have a name.
pub open spec fn named(adapters: Seq<AdapterStats>) -> Seq<AdapterStats>
    decreases adapters.len(),
{
    if adapters.len() == 0 {
        Seq::empty()
    } else {
        named(adapters.drop_last()) + if adapter_name(adapters.last()).len() > 0 {
            seq![adapters.last()]
        } else {
            Seq::empty()
        }
    }
}

/// One reading per named adapter, in order.
pub fn read_network(adapters: &Vec<AdapterStats>) -> (r: Vec<RawNetStat>)
    ensures
        r@.len() == named(adapters@).len(),
        forall|i: int| 0 <= i < r@.len() ==> adapter_reading(named(adapters@)[i], #[trigger] r@[i]),
{
    let mut out: Vec<RawNetStat> = Vec::new();
    let mut i: usize = 0;
    while i < adapters.len()
        invariant
            i <= adapters.len(),
            out@.len() == named(adapters@.take(i as int)).len(),
            forall|k: int|
                0 <= k < out@.len() ==> adapter_reading(
                    named(adapters@.take(i as int))[k],
                    #[trigger] out@[k],
                ),
        decreases adapters.len() - i,
    {
        let ghost t = adapters@.take(i + 1);
        assert(t.drop_last() =~= adapters@.take(i as int));
        let a = &adapters[i];
        let name = match &a.name {
            Some(n) => n.clone(),
            None => String::new(),
        };
        if !name.as_str().is_empty() {
            let ghost before = out@;
            out.push(
                RawNetStat {
                    interface: name,
                    rx_bytes: match a.received_bytes {
                        Some(v) => v,
                        None => 0,
                    },
                    rx_packets: match a.received_unicast_packets {
                        Some(v) => v,
                        None => 0,
                    },
                    rx_errors: match a.received_packet_errors {
                        Some(v) => v,
                        None => 0,
                    },
                    rx_dropped: match a.received_discarded_packets {
                        Some(v) => v,
                        None => 0,
                    },
                    tx_bytes: match a.sent_bytes {
                        Some(v) => v,
                        None => 0,
                    },
                    tx_packets: match a.sent_unicast_packets {
                        Some(v) => v,
                        None => 0,
                    },
                    tx_errors: match a.outbound_packet_errors {
                        Some(v) => v,
                        None => 0,
                    },
                    tx_dropped: match a.outbound_discarded_packets {
                        Some(v) => v,
                        None => 0,
                    },
                },
            );
            assert forall|k: int| 0 <= k < out@.len() implies adapter_reading(
                named(t)[k],
                #[trigger] out@[k],
            ) by {
                if k < before.len() {
                    assert(out@[k] == before[k]);
                    assert(named(t)[k] == named(adapters@.take(i as int))[k]);
                }
            }
        }
        i += 1;
    }
    assert(adapters@.take(adapters.len() as int) =~= adapters@);
    out
}

// ─── Volumes ────────────────────────────────────────────────────────────────
/// The family of a filesystem name (any ASCII case): NTFS and ReFS are
/// `windows`, FAT, FAT32 and exFAT are `fat`, others keep their lowercase
/// name.
pub open spec fn filesystem_family_spec(fs: Seq<char>) -> Seq<char> {
    let l = lower_seq(fs);
    if l == "ntfs"@ || l == "refs"@ {
        "windows"@
    } else if l == "fat"@ || l == "fat32"@ || l == "exfat"@ {
        "fat"@
    } else {
        l
    }
}

pub fn filesystem_family(fs: &str) -> (r: String)
    ensures
        r@ == filesystem_family_spec(fs@),
{
    let l = lower_chars(&chars_of(fs));
    if chars_eq_str(&l, "ntfs") || chars_eq_str(&l, "refs") {
        "windows".to_owned()
    } else if chars_eq_str(&l, "fat") || chars_eq_str(&l, "fat32") || chars_eq_str(&l, "exfat") {
        "fat".to_owned()
    } else {
        string_of(&l)
    }
}

/// The label of a mapped network share: its remote path, else the local
/// one.
pub fn remote_label(device: &str, remote: &str) -> (r: String)
    ensures
        r@ == if remote@.len() == 0 {
            device@
        } else {
            remote@
        },
{
    if remote.is_empty() {
        device.to_owned()
    } else {
        remote.to_owned()
    }
}


// ─── Volume stacks ──────────────────────────────────────────────────────────
pub open spec fn parent_views(v: Seq<(String, Option<String>)>) -> Seq<(Seq<char>, Option<Seq<char>>)> {
    v.map_values(
        |p: (String, Option<String>)|
            (
                p.0@,
                match p.1 {
                    Some(x) => Some(x@),
                    None => None,
                },
            ),
    )
}

/// The parent of `d`: that of the last entry for `d`, none when there is no
/// entry or the entry has no parent.
pub open spec fn parent_of(m: Seq<(Seq<char>, Option<Seq<char>>)>, d: Seq<char>) -> Option<Seq<char>>
    decreases m.len(),
{
    if m.len() == 0 {
        None
    } else if m.last().0 == d {
        m.last().1
    } else {
        parent_of(m.drop_last(), d)
    }
}

/// The chain `d`, parent of `d`, its parent, ... when it ends within `n`
/// steps.
pub open spec fn chain_within(m: Seq<(Seq<char>, Option<Seq<char>>)>, d: Seq<char>, n: nat) -> Option<
    Seq<Seq<char>>,
>
    decreases n,
{
    if n == 0 {
        None
    } else {
        match parent_of(m, d) {
            Some(p) => match chain_within(m, p, (n - 1) as nat) {
                Some(rest) => Some(seq![d] + rest),
                None => None,
            },
            None => Some(seq![d]),
        }
    }
}

proof fn lemma_chain_grows(m: Seq<(Seq<char>, Option<Seq<char>>)>, d: Seq<char>, n: nat, k: nat)
    requires
        chain_within(m, d, n) is Some,
        n <= k,
    ensures
        chain_within(m, d, k) == chain_within(m, d, n),
    decreases n,
{
    if n > 0 {
        match parent_of(m, d) {
            Some(p) => {
                lemma_chain_grows(m, p, (n - 1) as nat, (k - 1) as nat);
            },
            None => {},
        }
    }
}

proof fn lemma_chain_head(m: Seq<(Seq<char>, Option<Seq<char>>)>, d: Seq<char>, n: nat)
    requires
        chain_within(m, d, n) is Some,
    ensures
        chain_within(m, d, n)->0.len() >= 1,
        chain_within(m, d, n)->0[0] == d,
{
}

/// The chain of `d` when it ends: the device first, its topmost ancestor
/// last.
pub open spec fn chain_of(m: Seq<(Seq<char>, Option<Seq<char>>)>, d: Seq<char>) -> Seq<Seq<char>> {
    chain_within(m, d, choose|n: nat| #[trigger] chain_within(m, d, n) is Some)->0
}

pub(crate) fn parent_exec(parents: &Vec<(String, Option<String>)>, d: &str) -> (r: Option<String>)
    ensures
        match r {
            Some(x) => parent_of(parent_views(parents@), d@) == Some(x@),
            None => parent_of(parent_views(parents@), d@) is None,
        },
{
    let ghost pv = parent_views(parents@);
    let mut i: usize = parents.len();
    assert(pv.take(parents.len() as int) =~= pv);
    while i > 0
        invariant
            i <= parents.len(),
            pv == parent_views(parents@),
            parent_of(pv, d@) == parent_of(pv.take(i as int), d@),
        decreases i,
    {
        let ghost t = pv.take(i as int);
        assert(t.drop_last() =~= pv.take(i - 1));
        assert(t.last() == pv[i - 1]);
        if str_eq(parents[i - 1].0.as_str(), d) {
            return match &parents[i - 1].1 {
                Some(x) => Some(x.clone()),
                None => None,
            };
        }
        i -= 1;
    }
    assert(pv.take(0) =~= Seq::<(Seq<char>, Option<Seq<char>>)>::empty());
    None
}

/// The stack of volumes that holds `device`, topmost first, `device` last,
/// following the parent links; the links must not loop.
pub fn logical_stack(device: &str, parents: &Vec<(String, Option<String>)>) -> (r: Vec<String>)
    requires
        exists|n: nat| #[trigger] chain_within(parent_views(parents@), device@, n) is Some,
    ensures
        r@.map_values(|s: String| s@) == chain_of(parent_views(parents@), device@).reverse(),
{
    let ghost pv = parent_views(parents@);
    let ghost n = choose|n: nat| #[trigger] chain_within(pv, device@, n) is Some;
    let ghost full = chain_within(pv, device@, n)->0;
    let mut stack: Vec<String> = Vec::new();
    let mut current: Option<String> = Some(device.to_owned());
    let ghost mut steps: nat = 0;
    while current.is_some()
        invariant
            pv == parent_views(parents@),
            steps <= n,
            chain_within(pv, device@, n) == Some(full),
            match current {
                Some(c) => stack@.map_values(|s: String| s@) == full.take(steps as int)
                    && chain_within(pv, c@, (n - steps) as nat) == Some(full.skip(steps as int))
                    && steps < n && steps < full.len(),
                None => stack@.map_values(|s: String| s@) == full,
            },
        decreases n - steps,
    {
        let name = current.unwrap();
        let ghost rest = full.skip(steps as int);
        proof {
            lemma_chain_head(pv, name@, (n - steps) as nat);
        }
        let next = parent_exec(parents, name.as_str());
        let ghost before = stack@.map_values(|s: String| s@);
        stack.push(name);
        proof {
            let after = stack@.map_values(|s: String| s@);
            assert(rest[0] == name@);
            assert(full[steps as int] == rest[0]);
            assert(after =~= before.push(name@));
            assert(full.take(steps + 1int) =~= full.take(steps as int).push(full[steps as int]));
            assert(after =~= full.take(steps + 1int));
            match &next {
                Some(p) => {
                    let more = chain_within(pv, p@, (n - steps - 1) as nat)->0;
                    lemma_chain_head(pv, p@, (n - steps - 1) as nat);
                    assert(rest =~= seq![name@] + more);
                    assert(rest.len() == full.len() - steps);
                    assert forall|j: int| 0 <= j < more.len() implies full.skip(steps + 1int)[j]
                        == more[j] by {
                        assert(full.skip(steps + 1int)[j] == full[steps + 1 + j]);
                        assert(rest[1 + j] == full[steps + 1 + j]);
                        assert(rest[1 + j] == more[j]);
                    }
                    assert(full.skip(steps + 1int) =~= more);
                    assert(n - steps - 1 > 0) by {
                        if n - steps - 1 == 0 {
                            assert(chain_within(pv, p@, 0) is None);
                        }
                    }
                },
                None => {
                    assert(rest =~= seq![name@]);
                    assert(rest.len() == full.len() - steps);
                    assert(full.take(steps + 1int) =~= full);
                },
            }
        }
        current = next;
        proof {
            steps = steps + 1;
        }
    }
    proof {
        lemma_chain_grows(pv, device@, n, n);
        let m = choose|m: nat| #[trigger] chain_within(pv, device@, m) is Some;
        if m <= n {
            lemma_chain_grows(pv, device@, m, n);
        } else {
            lemma_chain_grows(pv, device@, n, m);
        }
    }
    let ghost before_rev = stack@.map_values(|s: String| s@);
    let mut out: Vec<String> = Vec::new();
    let mut k: usize = stack.len();
    while k > 0
        invariant
            k <= stack.len(),
            out@.len() == stack.len() - k,
            forall|j: int| 0 <= j < out@.len() ==> #[trigger] out@[j]@ == stack@[stack.len() - 1 - j]@,
        decreases k,
    {
        k -= 1;
        out.push(stack[k].clone());
    }
    assert(out@.map_values(|s: String| s@) =~= before_rev.reverse());
    out
}

/// The devices whose parent is `device`, in order.
pub open spec fn children_spec(m: Seq<(Seq<char>, Option<Seq<char>>)>, device: Seq<char>) -> Seq<Seq<char>>
    decreases m.len(),
{
    if m.len() == 0 {
        Seq::empty()
    } else {
        children_spec(m.drop_last(), device) + if m.last().1 == Some(device) {
            seq![m.last().0]
        } else {
            Seq::empty()
        }
    }
}

pub fn children_of(device: &str, parents: &Vec<(String, Option<String>)>) -> (r: Vec<String>)
    ensures
        r@.map_values(|s: String| s@) == children_spec(parent_views(parents@), device@),
{
    let ghost pv = parent_views(parents@);
    let mut out: Vec<String> = Vec::new();
    let mut i: usize = 0;
    while i < parents.len()
        invariant
            i <= parents.len(),
            pv == parent_views(parents@),
            out@.map_values(|s: String| s@) == children_spec(pv.take(i as int), device@),
        decreases parents.len() - i,
    {
        let ghost t = pv.take(i + 1);
        assert(t.drop_last() =~= pv.take(i as int));
        assert(t.last() == pv[i as int]);
        let ghost before = out@.map_values(|s: String| s@);
        match &parents[i].1 {
            Some(p) => {
                if str_eq(p.as_str(), device) {
                    out.push(parents[i].0.clone());
                    assert(out@.map_values(|s: String| s@) =~= before.push(pv[i as int].0));
                }
            },
            None => {},
        }
        i += 1;
    }
    assert(pv.take(parents.len() as int) =~= pv);
    out
}

} // verus!
