//! Parsers of the text that macOS tools print (`ps`, `vm_stat`, `df`,
//! `netstat`, `sysctl`, `sw_vers`).
use vstd::prelude::*;
use crate::platform::api::{RawDiskStat, RawNetConnections, RawNetStat};
use crate::platform::mount_map::{keys_distinct, last_for, lookup, mount_map, pair_views};
use crate::text::{
    chars_eq, chars_eq_str, chars_of, contains, contains_exec, copy_chars, index_of, index_of_from,
    lines, parse_u64, parse_u64_spec, push_chars, push_str, sat, sat_add, sat_mul, slice_of,
    split_char, split_lines, split_on, split_ws, starts_with, starts_with_exec, string_of,
    tokens, trim, trim_chars, trim_end_char, trim_end_char_exec, trim_start_seq,
    trim_start_seq_exec, views, without, remove_char, find, find_exec,
};

verus! {

broadcast use vstd::string::group_string_axioms;

// ─── ps ─────────────────────────────────────────────────────────────────────
/// The seconds of a `[[hh:]mm:ss` clock: minutes and seconds, or hours,
/// minutes and seconds, with saturating arithmetic.
pub open spec fn clock_seconds(tp: Seq<char>) -> Option<u64> {
    let parts = split_on(tp, ':');
    if parts.len() == 2 && parse_u64_spec(parts[0]) is Some && parse_u64_spec(parts[1]) is Some {
        Some(sat(parse_u64_spec(parts[0])->0 * 60 + parse_u64_spec(parts[1])->0))
    } else if parts.len() == 3 && parse_u64_spec(parts[0]) is Some && parse_u64_spec(parts[1]) is Some
        && parse_u64_spec(parts[2]) is Some {
        Some(
            sat(parse_u64_spec(parts[0])->0 * 3600 + parse_u64_spec(parts[1])->0 * 60
                + parse_u64_spec(parts[2])->0),
        )
    } else {
        None
    }
}

/// A `ps` cumulative CPU time `[dd-][hh:]mm:ss` in nanoseconds: `None` when
/// a field does not read as a number, when the clock has neither two nor
/// three fields, or when the nanoseconds overflow a `u64`. Days, hours,
/// minutes and seconds add up with saturating arithmetic.
pub open spec fn ps_cpu_time_spec(value: Seq<char>) -> Option<u64> {
    let t = trim(value);
    let (days, tp) = match index_of(t, '-') {
        Some(i) => (parse_u64_spec(t.take(i)), t.skip(i + 1)),
        None => (Some(0u64), t),
    };
    match (days, clock_seconds(tp)) {
        (Some(d), Some(secs)) => {
            let total = sat(d * 86_400 + secs);
            if total * 1_000_000_000 <= u64::MAX {
                Some((total * 1_000_000_000) as u64)
            } else {
                None
            }
        },
        _ => None,
    }
}

fn clock_seconds_exec(tp: &Vec<char>) -> (r: Option<u64>)
    ensures
        r == clock_seconds(tp@),
{
    let parts = split_char(tp, ':');
    assert(views(parts@).len() == parts@.len());
    assert(forall|i: int| 0 <= i < parts@.len() ==> views(parts@)[i] == parts@[i]@);
    if parts.len() == 2 {
        let m = match parse_u64(&parts[0]) {
            Some(x) => x,
            None => return None,
        };
        let s = match parse_u64(&parts[1]) {
            Some(x) => x,
            None => return None,
        };
        let r = sat_add(sat_mul(m, 60), s);
        assert(sat(sat(m * 60) + s) == sat(m * 60 + s));
        Some(r)
    } else if parts.len() == 3 {
        let h = match parse_u64(&parts[0]) {
            Some(x) => x,
            None => return None,
        };
        let m = match parse_u64(&parts[1]) {
            Some(x) => x,
            None => return None,
        };
        let s = match parse_u64(&parts[2]) {
            Some(x) => x,
            None => return None,
        };
        let r = sat_add(sat_add(sat_mul(h, 3600), sat_mul(m, 60)), s);
        assert(sat(sat(sat(h * 3600) + sat(m * 60)) + s) == sat(h * 3600 + m * 60 + s));
        Some(r)
    } else {
        None
    }
}

/// Reads a `ps` `time` field as nanoseconds of CPU time.
pub fn parse_ps_cpu_time_ns(value: &str) -> (r: Option<u64>)
    ensures
        r == ps_cpu_time_spec(value@),
{
    let v = chars_of(value);
    let t = trim_chars(&v);
    assert(t@.skip(0) =~= t@);
    let (days, tp) = match index_of_from(&t, 0, '-') {
        Some(i) => {
            let d = match parse_u64(&slice_of(&t, 0, i)) {
                Some(d) => d,
                None => {
                    assert(t@.subrange(0, i as int) =~= t@.take(i as int));
                    return None;
                },
            };
            assert(t@.subrange(0, i as int) =~= t@.take(i as int));
            let rest = slice_of(&t, i + 1, t.len());
            assert(rest@ =~= t@.skip(i + 1));
            (d, rest)
        },
        None => (0u64, t),
    };
    let secs = match clock_seconds_exec(&tp) {
        Some(s) => s,
        None => return None,
    };
    let total = sat_add(sat_mul(days, 86_400), secs);
    assert(sat(sat(days * 86_400) + secs) == sat(days * 86_400 + secs));
    total.checked_mul(1_000_000_000)
}

// ─── vm_stat ────────────────────────────────────────────────────────────────
/// A `vm_stat` line `<key>: <count>.`: the count when the trimmed line
/// starts with `key` and the text after the first `:` reads as a number
/// once trimmed, stripped of trailing dots and of every other dot.
pub open spec fn vm_stat_value_spec(line: Seq<char>, key: Seq<char>) -> Option<u64> {
    let t = trim(line);
    let parts = split_on(t, ':');
    if !starts_with(t, key) || parts.len() < 2 {
        None
    } else {
        parse_u64_spec(without(trim_end_char(trim(parts[1]), '.'), '.'))
    }
}

/// Reads one `vm_stat` counter line.
pub fn parse_vm_stat_value(line: &str, key: &str) -> (r: Option<u64>)
    ensures
        r == vm_stat_value_spec(line@, key@),
{
    let v = chars_of(line);
    let k = chars_of(key);
    let t = trim_chars(&v);
    if !starts_with_exec(&t, &k) {
        return None;
    }
    let parts = split_char(&t, ':');
    assert(views(parts@).len() == parts@.len());
    if parts.len() < 2 {
        return None;
    }
    assert(views(parts@)[1] == parts@[1]@);
    let p1 = trim_chars(&parts[1]);
    let p2 = trim_end_char_exec(&p1, '.');
    let p3 = remove_char(&p2, '.');
    parse_u64(&p3)
}

// ─── sw_vers ────────────────────────────────────────────────────────────────
/// `version (build)`, or whichever of the two is not blank, or nothing;
/// both trimmed.
pub open spec fn os_version_spec(version: Seq<char>, build: Seq<char>) -> Seq<char> {
    let v = trim(version);
    let b = trim(build);
    if v.len() == 0 && b.len() == 0 {
        Seq::empty()
    } else if b.len() == 0 {
        v
    } else if v.len() == 0 {
        b
    } else {
        v + seq![' ', '('] + b + seq![')']
    }
}

/// The macOS version line shown for the host.
pub fn format_os_version(product_version: &str, build_version: &str) -> (r: String)
    ensures
        r@ == os_version_spec(product_version@, build_version@),
{
    let v = trim_chars(&chars_of(product_version));
    let b = trim_chars(&chars_of(build_version));
    if v.len() == 0 && b.len() == 0 {
        String::new()
    } else if b.len() == 0 {
        string_of(&v)
    } else if v.len() == 0 {
        string_of(&b)
    } else {
        let mut out = string_of(&v);
        push_str(&mut out, " (");
        push_chars(&mut out, &b);
        push_str(&mut out, ")");
        proof {
            reveal_strlit(" (");
            reveal_strlit(")");
        }
        assert(out@ =~= v@ + seq![' ', '('] + b@ + seq![')']);
        out
    }
}

// ─── df ─────────────────────────────────────────────────────────────────────
/// A mounted block device and its mount point.
#[derive(Debug, Clone)]
pub struct DiskRow {
    pub device: String,
    pub mount_point: String,
}

pub open spec fn dev_prefix() -> Seq<char> {
    seq!['/', 'd', 'e', 'v', '/']
}

/// The row of a `df -kP` line: at least six fields, the first naming a
/// `/dev/` device (given without that prefix), the sixth the mount point.
pub open spec fn df_row(l: Seq<char>) -> Option<(Seq<char>, Seq<char>)> {
    let tk = tokens(l);
    if tk.len() >= 6 && starts_with(tk[0], dev_prefix()) {
        Some((trim_start_seq(tk[0], dev_prefix()), tk[5]))
    } else {
        None
    }
}

/// The rows of the lines of `ls`, in order.
pub open spec fn df_rows(ls: Seq<Seq<char>>) -> Seq<(Seq<char>, Seq<char>)>
    decreases ls.len(),
{
    if ls.len() == 0 {
        Seq::empty()
    } else {
        match df_row(ls.last()) {
            Some(r) => df_rows(ls.drop_last()).push(r),
            None => df_rows(ls.drop_last()),
        }
    }
}

/// The data lines of a `df` report: all lines but the header.
pub open spec fn report_body(output: Seq<char>) -> Seq<Seq<char>> {
    if lines(output).len() == 0 {
        Seq::empty()
    } else {
        lines(output).skip(1)
    }
}

pub open spec fn row_views(rows: Seq<DiskRow>) -> Seq<(Seq<char>, Seq<char>)> {
    rows.map_values(|r: DiskRow| (r.device@, r.mount_point@))
}

fn dev_prefix_exec() -> (r: Vec<char>)
    ensures
        r@ == dev_prefix(),
{
    let mut r: Vec<char> = Vec::new();
    r.push('/');
    r.push('d');
    r.push('e');
    r.push('v');
    r.push('/');
    assert(r@ =~= dev_prefix());
    r
}

/// The mounted `/dev/` devices of a `df -kP` report.
pub fn disk_rows(output: &str) -> (r: Vec<DiskRow>)
    ensures
        row_views(r@) == df_rows(report_body(output@)),
{
    let v = chars_of(output);
    let ls = split_lines(&v);
    let ghost all = lines(v@);
    let mut out: Vec<DiskRow> = Vec::new();
    if ls.len() == 0 {
        assert(row_views(out@) =~= Seq::empty());
        return out;
    }
    let ghost body = all.skip(1);
    let prefix = dev_prefix_exec();
    let mut i: usize = 1;
    assert(body.take(0) =~= Seq::<Seq<char>>::empty());
    while i < ls.len()
        invariant
            1 <= i <= ls.len(),
            all == views(ls@),
            body == all.skip(1),
            prefix@ == dev_prefix(),
            row_views(out@) == df_rows(body.take(i - 1)),
        decreases ls.len() - i,
    {
        let ghost cur = body.take(i as int);
        assert(cur.drop_last() =~= body.take(i - 1));
        assert(cur.last() == ls@[i as int]@);
        let tk = split_ws(&ls[i]);
        assert(views(tk@).len() == tk@.len());
        if tk.len() >= 6 {
            assert(views(tk@)[0] == tk@[0]@);
            assert(views(tk@)[5] == tk@[5]@);
            if starts_with_exec(&tk[0], &prefix) {
                let device = trim_start_seq_exec(&tk[0], &prefix);
                let ghost before = out@;
                out.push(DiskRow { device: string_of(&device), mount_point: string_of(&tk[5]) });
                assert(row_views(out@) =~= row_views(before).push((device@, tk@[5]@)));
            }
        }
        i += 1;
    }
    assert(body.take(ls.len() - 1) =~= body);
    out
}

/// The distinct devices of `rows`, each at its first occurrence.
pub open spec fn first_devices(rows: Seq<Seq<char>>) -> Seq<Seq<char>>
    decreases rows.len(),
{
    if rows.len() == 0 {
        Seq::empty()
    } else {
        let prev = first_devices(rows.drop_last());
        if prev.contains(rows.last()) {
            prev
        } else {
            prev.push(rows.last())
        }
    }
}

pub open spec fn stat_devices(stats: Seq<RawDiskStat>) -> Seq<Seq<char>> {
    stats.map_values(|s: RawDiskStat| s.device@)
}

/// A disk reading that carries only the device name.
pub open spec fn is_bare(s: RawDiskStat) -> bool {
    &&& s.reads_completed == 0
    &&& s.reads_merged == 0
    &&& s.reads_sectors == 0
    &&& s.reads_time_ms == 0
    &&& s.writes_completed == 0
    &&& s.writes_merged == 0
    &&& s.writes_sectors == 0
    &&& s.writes_time_ms == 0
    &&& s.io_ticks == 0
    &&& s.weighted_io_time_ms == 0
}

/// A disk reading with only its device name set.
pub fn bare_disk_stat(device: String) -> (r: RawDiskStat)
    ensures
        r.device == device,
        is_bare(r),
{
    RawDiskStat {
        device,
        reads_completed: 0,
        reads_merged: 0,
        reads_sectors: 0,
        reads_time_ms: 0,
        writes_completed: 0,
        writes_merged: 0,
        writes_sectors: 0,
        writes_time_ms: 0,
        io_ticks: 0,
        weighted_io_time_ms: 0,
    }
}

/// One reading per distinct device of the `df` rows, in order of first
/// appearance, with no counters (macOS gives none).
pub fn read_disks(rows: &Vec<DiskRow>) -> (r: Vec<RawDiskStat>)
    ensures
        stat_devices(r@) == first_devices(row_views(rows@).map_values(|x: (Seq<char>, Seq<char>)| x.0)),
        forall|i: int| 0 <= i < r@.len() ==> is_bare(#[trigger] r@[i]),
{
    let ghost devs = row_views(rows@).map_values(|x: (Seq<char>, Seq<char>)| x.0);
    let mut out: Vec<RawDiskStat> = Vec::new();
    let mut i: usize = 0;
    while i < rows.len()
        invariant
            i <= rows.len(),
            devs == row_views(rows@).map_values(|x: (Seq<char>, Seq<char>)| x.0),
            stat_devices(out@) == first_devices(devs.take(i as int)),
            forall|j: int| 0 <= j < out@.len() ==> is_bare(#[trigger] out@[j]),
        decreases rows.len() - i,
    {
        assert(devs.take(i + 1).drop_last() =~= devs.take(i as int));
        assert(devs.take(i + 1).last() == rows@[i as int].device@);
        let d = &rows[i].device;
        let dv = chars_of(d.as_str());
        let mut seen = false;
        let mut j: usize = 0;
        while j < out.len()
            invariant
                j <= out.len(),
                dv@ == rows@[i as int].device@,
                seen == exists|k: int| 0 <= k < j && stat_devices(out@)[k] == dv@,
            decreases out.len() - j,
        {
            assert(stat_devices(out@)[j as int] == out@[j as int].device@);
            if chars_eq_str(&dv, out[j].device.as_str()) {
                seen = true;
            }
            j += 1;
        }
        proof {
            let prev = first_devices(devs.take(i as int));
            if seen {
                let k = choose|k: int| 0 <= k < out.len() && stat_devices(out@)[k] == dv@;
                assert(prev[k] == dv@);
                assert(prev.contains(dv@));
            } else {
                assert(!prev.contains(dv@)) by {
                    if prev.contains(dv@) {
                        let k = choose|k: int| 0 <= k < prev.len() && prev[k] == dv@;
                        assert(stat_devices(out@)[k] == dv@);
                    }
                }
            }
        }
        if !seen {
            let ghost before = out@;
            out.push(bare_disk_stat(string_of(&dv)));
            assert(stat_devices(out@) =~= stat_devices(before).push(dv@));
        }
        i += 1;
    }
    assert(devs.take(rows.len() as int) =~= devs);
    out
}

/// Device to mount point, from the `df` rows; a later row of a device wins.
pub fn read_mount_map(rows: &Vec<DiskRow>) -> (r: Vec<(String, String)>)
    ensures
        keys_distinct(pair_views(r@)),
        forall|k: Seq<char>| #[trigger] lookup(pair_views(r@), k) == last_for(row_views(rows@), k),
{
    let mut pairs: Vec<(String, String)> = Vec::new();
    let mut i: usize = 0;
    while i < rows.len()
        invariant
            i <= rows.len(),
            pair_views(pairs@) == row_views(rows@).take(i as int),
        decreases rows.len() - i,
    {
        let ghost before = pair_views(pairs@);
        let d = rows[i].device.clone();
        let m = rows[i].mount_point.clone();
        pairs.push((d, m));
        assert(pair_views(pairs@) =~= before.push((d@, m@)));
        assert(row_views(rows@)[i as int] == (d@, m@));
        assert(row_views(rows@).take(i + 1) =~= row_views(rows@).take(i as int).push(
            row_views(rows@)[i as int],
        ));
        i += 1;
    }
    assert(row_views(rows@).take(rows.len() as int) =~= row_views(rows@));
    mount_map(&pairs)
}

// ─── netstat ────────────────────────────────────────────────────────────────
pub open spec fn is_tcp_line(l: Seq<char>) -> bool {
    starts_with(trim(l), seq!['t', 'c', 'p'])
}

pub open spec fn tcp_line_count(ls: Seq<Seq<char>>) -> nat
    decreases ls.len(),
{
    if ls.len() == 0 {
        0
    } else {
        tcp_line_count(ls.drop_last()) + if is_tcp_line(ls.last()) {
            1nat
        } else {
            0nat
        }
    }
}

pub open spec fn established_count(ls: Seq<Seq<char>>) -> nat
    decreases ls.len(),
{
    if ls.len() == 0 {
        0
    } else {
        established_count(ls.drop_last()) + if is_tcp_line(ls.last()) && contains(
            trim(ls.last()),
            "ESTABLISHED"@,
        ) {
            1nat
        } else {
            0nat
        }
    }
}

proof fn lemma_tcp_counts_monotone(ls: Seq<Seq<char>>, i: int)
    requires
        0 <= i <= ls.len(),
    ensures
        tcp_line_count(ls.take(i)) <= tcp_line_count(ls),
        established_count(ls.take(i)) <= tcp_line_count(ls.take(i)),
    decreases ls.len() - i,
{
    if i < ls.len() {
        lemma_tcp_counts_monotone(ls, i + 1);
        assert(ls.take(i + 1).drop_last() =~= ls.take(i));
    } else {
        assert(ls.take(i) =~= ls);
    }
    lemma_established_le_total(ls.take(i));
}

proof fn lemma_established_le_total(ls: Seq<Seq<char>>)
    ensures
        established_count(ls) <= tcp_line_count(ls),
    decreases ls.len(),
{
    if ls.len() > 0 {
        lemma_established_le_total(ls.drop_last());
    }
}

fn tcp_prefix() -> (r: Vec<char>)
    ensures
        r@ == seq!['t', 'c', 'p'],
{
    let mut r: Vec<char> = Vec::new();
    r.push('t');
    r.push('c');
    r.push('p');
    assert(r@ =~= seq!['t', 'c', 'p']);
    r
}

/// TCP socket counts from `netstat -anp tcp`: every line whose trimmed text
/// starts with `tcp` is a socket; those that mention `ESTABLISHED` are
/// established. The other counts stay zero.
pub fn read_net_connections(output: &str) -> (r: RawNetConnections)
    requires
        tcp_line_count(lines(output@)) <= u32::MAX,
    ensures
        r == (RawNetConnections {
            total: tcp_line_count(lines(output@)) as u32,
            established: established_count(lines(output@)) as u32,
            ..RawNetConnections::zero_spec()
        }),
{
    let v = chars_of(output);
    let ls = split_lines(&v);
    let ghost all = lines(v@);
    let tcp = tcp_prefix();
    let est = chars_of("ESTABLISHED");
    let mut total: u32 = 0;
    let mut established: u32 = 0;
    let mut i: usize = 0;
    while i < ls.len()
        invariant
            i <= ls.len(),
            all == views(ls@),
            tcp@ == seq!['t', 'c', 'p'],
            est@ == "ESTABLISHED"@,
            tcp_line_count(all) <= u32::MAX,
            total == tcp_line_count(all.take(i as int)),
            established == established_count(all.take(i as int)),
        decreases ls.len() - i,
    {
        assert(all.take(i + 1).drop_last() =~= all.take(i as int));
        assert(all.take(i + 1).last() == ls@[i as int]@);
        proof {
            lemma_tcp_counts_monotone(all, i + 1);
        }
        let t = trim_chars(&ls[i]);
        if starts_with_exec(&t, &tcp) {
            total += 1;
            if contains_exec(&t, &est) {
                established += 1;
            }
        }
        i += 1;
    }
    assert(all.take(ls.len() as int) =~= all);
    let mut r = RawNetConnections::zero();
    r.total = total;
    r.established = established;
    r
}

// ─── sysctl ─────────────────────────────────────────────────────────────────
/// Seconds since boot from `sysctl -n kern.boottime` (`{ sec = N, ... }`) and
/// the current Unix time: zero when the text holds no `sec = `; otherwise
/// `now` minus the boot second (a boot second that does not read as a number
/// counts as zero), not below zero.
pub open spec fn uptime_spec(boottime: Seq<char>, now: u64) -> u64 {
    match find(boottime, "sec = "@) {
        None => 0,
        Some(pos) => {
            let rest = boottime.skip(pos + 6);
            let secs = match parse_u64_spec(trim(split_on(rest, ',')[0])) {
                Some(s) => s,
                None => 0,
            };
            if now >= secs {
                (now - secs) as u64
            } else {
                0
            }
        },
    }
}

/// Uptime from the boot time that `sysctl` reports and the current time.
pub fn read_uptime_seconds(boottime: &str, now: u64) -> (r: u64)
    ensures
        r == uptime_spec(boottime@, now),
{
    let v = chars_of(boottime);
    let pat = chars_of("sec = ");
    proof {
        reveal_strlit("sec = ");
    }
    let pos = match find_exec(&v, &pat) {
        Some(p) => p,
        None => return 0,
    };
    proof {
        assert(crate::text::matches_at(v@, pat@, pos as int)) by {
            crate::text::lemma_find_matches(v@, pat@, 0);
        }
        assert(pat@.len() == 6);
        assert(pos + pat@.len() <= v@.len());
    }
    assert(pos + 6 <= v.len());
    let start: usize = pos + 6;
    let rest = slice_of(&v, start, v.len());
    assert(rest@ =~= v@.skip(pos + 6));
    let pieces = split_char(&rest, ',');
    proof {
        lemma_split_nonempty(rest@, ',');
    }
    assert(views(pieces@)[0] == pieces@[0]@);
    let first = trim_chars(&pieces[0]);
    let secs = match parse_u64(&first) {
        Some(s) => s,
        None => 0,
    };
    now.saturating_sub(secs)
}

proof fn lemma_split_nonempty(s: Seq<char>, c: char)
    ensures
        split_on(s, c).len() >= 1,
{
}

/// The page size that memory counts use on macOS.
pub fn page_size() -> (r: u64)
    ensures
        r == 1024,
{
    1024
}


// ─── netstat -ibn ───────────────────────────────────────────────────────────
/// Counters of one interface line: received packets, receive errors, sent
/// packets, send errors, received bytes, sent bytes.
pub type IfCounters = (u64, u64, u64, u64, u64, u64);

/// One line of `netstat -ibn`: at least 12 fields, not the loopback `lo0`,
/// and the six counters readable.
pub open spec fn ib_line(l: Seq<char>) -> Option<(Seq<char>, IfCounters)> {
    let p = tokens(l);
    if p.len() < 12 || p[0] == seq!['l', 'o', '0'] {
        None
    } else {
        match (
            parse_u64_spec(p[4]),
            parse_u64_spec(p[5]),
            parse_u64_spec(p[6]),
            parse_u64_spec(p[7]),
            parse_u64_spec(p[p.len() - 2]),
            parse_u64_spec(p[p.len() - 1]),
        ) {
            (Some(a), Some(b), Some(c), Some(d), Some(e), Some(f)) => Some((p[0], (a, b, c, d, e, f))),
            _ => None,
        }
    }
}

pub open spec fn add_counters(x: IfCounters, y: IfCounters) -> IfCounters {
    (sat(x.0 + y.0), sat(x.1 + y.1), sat(x.2 + y.2), sat(x.3 + y.3), sat(x.4 + y.4), sat(x.5 + y.5))
}

/// Adds one interface line to the totals: to the interface's entry when
/// there is one, else as a new entry at the end.
pub open spec fn add_line(acc: Seq<(Seq<char>, IfCounters)>, x: (Seq<char>, IfCounters)) -> Seq<
    (Seq<char>, IfCounters),
> {
    if exists|i: int| 0 <= i < acc.len() && (#[trigger] acc[i]).0 == x.0 {
        let i = choose|i: int| 0 <= i < acc.len() && (#[trigger] acc[i]).0 == x.0;
        acc.update(i, (x.0, add_counters(acc[i].1, x.1)))
    } else {
        acc.push(x)
    }
}

/// The totals of lines `ls`, per interface, in order of first appearance.
pub open spec fn ib_totals(ls: Seq<Seq<char>>) -> Seq<(Seq<char>, IfCounters)>
    decreases ls.len(),
{
    if ls.len() == 0 {
        Seq::empty()
    } else {
        let acc = ib_totals(ls.drop_last());
        match ib_line(ls.last()) {
            Some(x) => add_line(acc, x),
            None => acc,
        }
    }
}

pub open spec fn net_view(s: RawNetStat) -> (Seq<char>, IfCounters) {
    (s.interface@, (s.rx_packets, s.rx_errors, s.tx_packets, s.tx_errors, s.rx_bytes, s.tx_bytes))
}

pub open spec fn is_fresh(s: RawNetStat) -> bool {
    s.rx_dropped == 0 && s.tx_dropped == 0
}

pub open spec fn ifaces_distinct(s: Seq<(Seq<char>, IfCounters)>) -> bool {
    forall|i: int, j: int| 0 <= i < j < s.len() ==> (#[trigger] s[i]).0 != (#[trigger] s[j]).0
}

proof fn lemma_ib_totals_distinct(ls: Seq<Seq<char>>)
    ensures
        ifaces_distinct(ib_totals(ls)),
    decreases ls.len(),
{
    if ls.len() > 0 {
        lemma_ib_totals_distinct(ls.drop_last());
        let acc = ib_totals(ls.drop_last());
        match ib_line(ls.last()) {
            Some(x) => {
                let r = add_line(acc, x);
                if exists|i: int| 0 <= i < acc.len() && (#[trigger] acc[i]).0 == x.0 {
                    let i = choose|i: int| 0 <= i < acc.len() && (#[trigger] acc[i]).0 == x.0;
                    assert forall|a: int, b: int| 0 <= a < b < r.len() implies (#[trigger] r[a]).0
                        != (#[trigger] r[b]).0 by {
                        assert(acc[a].0 != acc[b].0);
                    }
                } else {
                    assert forall|a: int, b: int| 0 <= a < b < r.len() implies (#[trigger] r[a]).0
                        != (#[trigger] r[b]).0 by {
                        if b < acc.len() {
                            assert(acc[a].0 != acc[b].0);
                        }
                    }
                }
            },
            None => {},
        }
    }
}

fn ib_line_exec(l: &Vec<char>) -> (r: Option<(Vec<char>, (u64, u64, u64, u64, u64, u64))>)
    ensures
        match r {
            Some((name, c)) => ib_line(l@) == Some((name@, c)),
            None => ib_line(l@) is None,
        },
{
    let p = split_ws(l);
    let ghost pv = views(p@);
    if p.len() < 12 {
        return None;
    }
    assert(pv[0] == p@[0]@);
    if p[0].len() == 3 && p[0][0] == 'l' && p[0][1] == 'o' && p[0][2] == '0' {
        assert(pv[0] =~= seq!['l', 'o', '0']);
        return None;
    }
    assert(pv[0] != seq!['l', 'o', '0']) by {
        if pv[0] == seq!['l', 'o', '0'] {
            assert(p@[0]@[0] == 'l');
        }
    }
    let n = p.len();
    assert(pv[4] == p@[4]@ && pv[5] == p@[5]@ && pv[6] == p@[6]@ && pv[7] == p@[7]@);
    assert(pv[n - 2] == p@[n - 2]@ && pv[n - 1] == p@[n - 1]@);
    match (
        parse_u64(&p[4]),
        parse_u64(&p[5]),
        parse_u64(&p[6]),
        parse_u64(&p[7]),
        parse_u64(&p[n - 2]),
        parse_u64(&p[n - 1]),
    ) {
        (Some(a), Some(b), Some(c), Some(d), Some(e), Some(f)) => Some((copy_chars(&p[0]), (a, b, c, d, e, f))),
        _ => None,
    }
}

fn find_iface(out: &Vec<RawNetStat>, name: &Vec<char>) -> (r: Option<usize>)
    ensures
        match r {
            Some(j) => j < out@.len() && out@[j as int].interface@ == name@,
            None => forall|m: int| 0 <= m < out@.len() ==> (#[trigger] out@[m]).interface@ != name@,
        },
{
    let mut j: usize = 0;
    while j < out.len()
        invariant
            j <= out.len(),
            forall|m: int| 0 <= m < j ==> (#[trigger] out@[m]).interface@ != name@,
        decreases out.len() - j,
    {
        if chars_eq_str(name, out[j].interface.as_str()) {
            return Some(j);
        }
        j += 1;
    }
    None
}

/// Per-interface totals of a `netstat -ibn` report (header line skipped),
/// in order of first appearance; counters add up with saturation.
pub fn read_network(output: &str) -> (r: Vec<RawNetStat>)
    ensures
        r@.map_values(|s: RawNetStat| net_view(s)) == ib_totals(report_body(output@)),
        forall|i: int| 0 <= i < r@.len() ==> is_fresh(#[trigger] r@[i]),
{
    let v = chars_of(output);
    let ls = split_lines(&v);
    let ghost body = report_body(output@);
    let mut out: Vec<RawNetStat> = Vec::new();
    if ls.len() == 0 {
        assert(out@.map_values(|s: RawNetStat| net_view(s)) =~= ib_totals(body));
        return out;
    }
    assert(body =~= views(ls@).skip(1));
    let mut i: usize = 1;
    while i < ls.len()
        invariant
            1 <= i <= ls.len(),
            body == views(ls@).skip(1),
            out@.map_values(|s: RawNetStat| net_view(s)) == ib_totals(body.take(i - 1)),
            forall|k: int| 0 <= k < out@.len() ==> is_fresh(#[trigger] out@[k]),
        decreases ls.len() - i,
    {
        let ghost cur = body.take(i as int);
        assert(cur.drop_last() =~= body.take(i - 1));
        assert(cur.last() == ls@[i as int]@);
        let ghost acc = ib_totals(body.take(i - 1));
        proof {
            lemma_ib_totals_distinct(body.take(i - 1));
        }
        match ib_line_exec(&ls[i]) {
            Some((name, c)) => {
                let ghost before = out@;
                let ghost bv = before.map_values(|s: RawNetStat| net_view(s));
                let ghost x = (name@, c);
                match find_iface(&out, &name) {
                    Some(j) => {
                        let o = &out[j];
                        let merged = RawNetStat {
                            interface: o.interface.clone(),
                            rx_bytes: o.rx_bytes.saturating_add(c.4),
                            rx_packets: o.rx_packets.saturating_add(c.0),
                            rx_errors: o.rx_errors.saturating_add(c.1),
                            rx_dropped: o.rx_dropped,
                            tx_bytes: o.tx_bytes.saturating_add(c.5),
                            tx_packets: o.tx_packets.saturating_add(c.2),
                            tx_errors: o.tx_errors.saturating_add(c.3),
                            tx_dropped: o.tx_dropped,
                        };
                        out.set(j, merged);
                        proof {
                            assert(bv[j as int].0 == x.0);
                            let k = choose|k: int| 0 <= k < acc.len() && (#[trigger] acc[k]).0 == x.0;
                            if k != j {
                                if k < j {
                                    assert(acc[k].0 != acc[j as int].0);
                                } else {
                                    assert(acc[j as int].0 != acc[k].0);
                                }
                            }
                            assert(out@.map_values(|s: RawNetStat| net_view(s)) =~= add_line(acc, x));
                        }
                    },
                    None => {
                        out.push(
                            RawNetStat {
                                interface: string_of(&name),
                                rx_bytes: c.4,
                                rx_packets: c.0,
                                rx_errors: c.1,
                                rx_dropped: 0,
                                tx_bytes: c.5,
                                tx_packets: c.2,
                                tx_errors: c.3,
                                tx_dropped: 0,
                            },
                        );
                        proof {
                            assert(!(exists|k: int| 0 <= k < acc.len() && (#[trigger] acc[k]).0 == x.0)) by {
                                if exists|k: int| 0 <= k < acc.len() && (#[trigger] acc[k]).0 == x.0 {
                                    let k = choose|k: int| 0 <= k < acc.len() && (#[trigger] acc[k]).0 == x.0;
                                    assert(before[k].interface@ == acc[k].0);
                                }
                            }
                            assert(out@.map_values(|s: RawNetStat| net_view(s)) =~= add_line(acc, x));
                        }
                    },
                }
            },
            None => {},
        }
        i += 1;
    }
    assert(body.take(ls.len() - 1) =~= body);
    out
}

} // verus!
