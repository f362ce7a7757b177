//! Parsers of Linux `/proc` and cgroup v2 text sources.
use vstd::prelude::*;
use crate::platform::api::{RawCpuStat, RawDiskStat, RawNetConnections, RawNetStat};
use crate::platform::mount_map::{first_for, first_map, keys_distinct, lookup, pair_views};
use crate::text::{
    all_digits, chars_eq, chars_eq_str, chars_of, decimal, index_of, index_of_from, is_digit, kv,
    line_kv, lines, parse_u32, parse_u32_spec, parse_u64, parse_u64_spec, push_char, push_chars, rindex_of, rindex_of_exec, slice_of,
    split_lines, split_ws, starts_with, starts_with_exec, string_of, tokens, trim, trim_chars,
    trim_start_char, views,
};

verus! {

broadcast use vstd::string::group_string_axioms;

// ─── CPU ────────────────────────────────────────────────────────────────────
pub open spec fn or_zero(s: Seq<char>) -> u64 {
    match parse_u64_spec(s) {
        Some(v) => v,
        None => 0,
    }
}

/// A `/proc/stat` CPU line: a label, then user, nice, system and idle, which
/// must read as numbers, then iowait, irq, softirq and steal, which must be
/// present and count as zero when they do not read as numbers.
pub open spec fn cpu_line_spec(line: Seq<char>) -> Option<RawCpuStat> {
    let tk = tokens(line);
    if tk.len() >= 9 && parse_u64_spec(tk[1]) is Some && parse_u64_spec(tk[2]) is Some
        && parse_u64_spec(tk[3]) is Some && parse_u64_spec(tk[4]) is Some {
        Some(
            RawCpuStat {
                user: parse_u64_spec(tk[1])->0,
                nice: parse_u64_spec(tk[2])->0,
                system: parse_u64_spec(tk[3])->0,
                idle: parse_u64_spec(tk[4])->0,
                iowait: or_zero(tk[5]),
                irq: or_zero(tk[6]),
                softirq: or_zero(tk[7]),
                steal: or_zero(tk[8]),
            },
        )
    } else {
        None
    }
}

fn parse_or_zero(v: &Vec<char>) -> (r: u64)
    ensures
        r == or_zero(v@),
{
    match parse_u64(v) {
        Some(x) => x,
        None => 0,
    }
}

/// Parses one `cpu` or `cpuN` line of `/proc/stat`.
pub fn parse_cpu_line(line: &str) -> (r: Option<RawCpuStat>)
    ensures
        r == cpu_line_spec(line@),
{
    let v = chars_of(line);
    let tk = split_ws(&v);
    assert(views(tk@).len() == tk@.len());
    if tk.len() < 9 {
        return None;
    }
    assert(forall|i: int| 0 <= i < tk@.len() ==> views(tk@)[i] == tk@[i]@);
    let user = match parse_u64(&tk[1]) {
        Some(x) => x,
        None => return None,
    };
    let nice = match parse_u64(&tk[2]) {
        Some(x) => x,
        None => return None,
    };
    let system = match parse_u64(&tk[3]) {
        Some(x) => x,
        None => return None,
    };
    let idle = match parse_u64(&tk[4]) {
        Some(x) => x,
        None => return None,
    };
    Some(
        RawCpuStat {
            user,
            nice,
            system,
            idle,
            iowait: parse_or_zero(&tk[5]),
            irq: parse_or_zero(&tk[6]),
            softirq: parse_or_zero(&tk[7]),
            steal: parse_or_zero(&tk[8]),
        },
    )
}

// ─── Disk ───────────────────────────────────────────────────────────────────
/// `trim_end_matches(|c| c.is_ascii_digit())`.
pub open spec fn trim_end_digits(s: Seq<char>) -> Seq<char>
    decreases s.len(),
{
    if s.len() > 0 && is_digit(s.last()) {
        trim_end_digits(s.drop_last())
    } else {
        s
    }
}

/// The whole-disk name of a partition name: `nvme0n1p2` → `nvme0n1`,
/// `sda3` → `sda`; other names unchanged.
pub open spec fn parent_device(dev: Seq<char>) -> Seq<char> {
    match rindex_of(dev, 'p') {
        Some(pos) if dev.skip(pos + 1).len() > 0 && all_digits(dev.skip(pos + 1)) => dev.take(pos),
        _ => {
            let trimmed = trim_end_digits(dev);
            if trimmed != dev && trimmed.len() > 0 {
                trimmed
            } else {
                dev
            }
        },
    }
}

proof fn lemma_trim_end_digits_take(s: Seq<char>, i: int)
    requires
        0 <= i <= s.len(),
        forall|j: int| i <= j < s.len() ==> is_digit(#[trigger] s[j]),
    ensures
        trim_end_digits(s) == trim_end_digits(s.take(i)),
    decreases s.len() - i,
{
    if i < s.len() {
        lemma_trim_end_digits_take(s.drop_last(), i);
        assert(s.drop_last().take(i) =~= s.take(i));
    } else {
        assert(s.take(i) =~= s);
    }
}

/// Strips a partition suffix from a block-device name.
pub fn strip_partition_suffix(dev: &str) -> (r: String)
    ensures
        r@ == parent_device(dev@),
{
    let v = chars_of(dev);
    if let Some(pos) = rindex_of_exec(&v, 'p') {
        let mut all = pos + 1 < v.len();
        let mut k = pos + 1;
        while k < v.len()
            invariant
                pos < v.len(),
                pos + 1 <= k <= v.len(),
                all == (pos + 1 < v.len() && forall|j: int| pos + 1 <= j < k ==> is_digit(
                    #[trigger] v@[j],
                )),
            decreases v.len() - k,
        {
            if !('0' <= v[k] && v[k] <= '9') {
                all = false;
            }
            k += 1;
        }
        proof {
            let sfx = v@.skip(pos + 1);
            if all {
                assert forall|j: int| 0 <= j < sfx.len() implies is_digit(#[trigger] sfx[j]) by {
                    assert(sfx[j] == v@[j + pos + 1]);
                }
            } else if sfx.len() > 0 {
                let j = choose|j: int| pos + 1 <= j < v.len() && !is_digit(#[trigger] v@[j]);
                assert(sfx[j - pos - 1] == v@[j]);
            }
        }
        if all {
            return string_of(&slice_of(&v, 0, pos));
        }
    }
    let mut end = v.len();
    while end > 0 && '0' <= v[end - 1] && v[end - 1] <= '9'
        invariant
            end <= v.len(),
            forall|j: int| end <= j < v.len() ==> is_digit(#[trigger] v@[j]),
        decreases end,
    {
        end -= 1;
    }
    proof {
        lemma_trim_end_digits_take(v@, end as int);
        let t = v@.take(end as int);
        if t.len() > 0 {
            assert(t.last() == v@[end - 1]);
        }
    }
    if end < v.len() && end > 0 {
        assert(v@.take(end as int).len() != v@.len());
        string_of(&slice_of(&v, 0, end))
    } else {
        proof {
            if end == v.len() {
                assert(v@.take(end as int) =~= v@);
            }
        }
        string_of(&v)
    }
}

// ─── cgroup v2 ──────────────────────────────────────────────────────────────
/// The path of a `/proc/self/cgroup` line `0::<path>` (hierarchy `0`, no
/// controllers); `None` for any other line.
pub open spec fn cgroup_line_path(l: Seq<char>) -> Option<Seq<char>> {
    match index_of(l, ':') {
        Some(i) => match index_of(l.skip(i + 1), ':') {
            Some(j) => {
                let hierarchy = l.take(i);
                let controllers = l.subrange(i + 1, i + 1 + j);
                if hierarchy == seq!['0'] && controllers.len() == 0 {
                    Some(l.skip(i + 2 + j))
                } else {
                    None
                }
            },
            None => None,
        },
        None => None,
    }
}

/// The path of the first line of `ls` that names the unified hierarchy.
pub open spec fn first_cgroup_path(ls: Seq<Seq<char>>) -> Option<Seq<char>>
    decreases ls.len(),
{
    if ls.len() == 0 {
        None
    } else {
        match cgroup_line_path(ls[0]) {
            Some(p) => Some(p),
            None => first_cgroup_path(ls.drop_first()),
        }
    }
}

fn cgroup_line_path_exec(l: &Vec<char>) -> (r: Option<Vec<char>>)
    ensures
        match r {
            Some(p) => cgroup_line_path(l@) == Some(p@),
            None => cgroup_line_path(l@) is None,
        },
{
    assert(l@.skip(0) =~= l@);
    let i = match index_of_from(l, 0, ':') {
        Some(i) => i,
        None => return None,
    };
    let j = match index_of_from(l, i + 1, ':') {
        Some(j) => j,
        None => return None,
    };
    assert(l@.subrange(i + 1, j as int) =~= l@.subrange(i + 1, i + 1 + (j - (i + 1))));
    let hierarchy_is_zero = i == 1 && l[0] == '0';
    proof {
        if i == 1 && l@[0] == '0' {
            assert(l@.take(i as int) =~= seq!['0']);
        }
        if l@.take(i as int) == seq!['0'] {
            assert(l@.take(i as int).len() == i);
            assert(l@.take(i as int)[0] == l@[0]);
        }
    }
    if hierarchy_is_zero && j == i + 1 {
        assert(l@.skip(i + 2 + (j - (i + 1))) =~= l@.skip(j + 1));
        Some(slice_of(l, j + 1, l.len()))
    } else {
        None
    }
}

/// The unified-hierarchy path in the contents of `/proc/self/cgroup`.
pub fn parse_cgroup_v2_path(content: &str) -> (r: Option<String>)
    ensures
        match r {
            Some(p) => first_cgroup_path(lines(content@)) == Some(p@),
            None => first_cgroup_path(lines(content@)) is None,
        },
{
    let v = chars_of(content);
    let ls = split_lines(&v);
    let ghost all = lines(v@);
    let mut i: usize = 0;
    assert(all.skip(0) =~= all);
    while i < ls.len()
        invariant
            i <= ls.len(),
            all == views(ls@),
            all == lines(content@),
            first_cgroup_path(all) == first_cgroup_path(all.skip(i as int)),
        decreases ls.len() - i,
    {
        assert(all.skip(i as int)[0] == ls@[i as int]@);
        assert(all.skip(i as int).drop_first() =~= all.skip(i + 1));
        match cgroup_line_path_exec(&ls[i]) {
            Some(p) => {
                assert(cgroup_line_path(all.skip(i as int)[0]) == Some(p@));
                assert(first_cgroup_path(all.skip(i as int)) == Some(p@));
                return Some(string_of(&p));
            },
            None => {},
        }
        i += 1;
    }
    None
}

/// Joins a cgroup-relative path under the cgroup root, as `Path::join` does
/// once the leading slashes are removed; the root itself for `/`.
pub open spec fn cgroup_join(root: Seq<char>, rel: Seq<char>) -> Seq<char> {
    if rel == seq!['/'] {
        root
    } else if root.len() == 0 {
        trim_start_char(rel, '/')
    } else if root.last() == '/' {
        root + trim_start_char(rel, '/')
    } else {
        root + seq!['/'] + trim_start_char(rel, '/')
    }
}

proof fn lemma_trim_start_char_skip(s: Seq<char>, c: char, i: int)
    requires
        0 <= i <= s.len(),
        forall|j: int| 0 <= j < i ==> #[trigger] s[j] == c,
    ensures
        trim_start_char(s, c) == trim_start_char(s.skip(i), c),
    decreases i,
{
    if i > 0 {
        lemma_trim_start_char_skip(s.drop_first(), c, i - 1);
        assert(s.drop_first().skip(i - 1) =~= s.skip(i));
    } else {
        assert(s.skip(0) =~= s);
    }
}

/// The directory of a cgroup under the cgroup root.
pub fn join_cgroup_path(root: &str, relative_path: &str) -> (r: String)
    ensures
        r@ == cgroup_join(root@, relative_path@),
{
    let rel = chars_of(relative_path);
    let rt = chars_of(root);
    if rel.len() == 1 && rel[0] == '/' {
        assert(rel@ =~= seq!['/']);
        return string_of(&rt);
    }
    proof {
        if rel@ == seq!['/'] {
            assert(rel@.len() == 1 && rel@[0] == '/');
        }
    }
    let mut k: usize = 0;
    while k < rel.len() && rel[k] == '/'
        invariant
            k <= rel.len(),
            forall|j: int| 0 <= j < k ==> #[trigger] rel@[j] == '/',
        decreases rel.len() - k,
    {
        k += 1;
    }
    proof {
        lemma_trim_start_char_skip(rel@, '/', k as int);
        let t = rel@.skip(k as int);
        if t.len() > 0 {
            assert(t[0] == rel@[k as int]);
        }
    }
    let tail = slice_of(&rel, k, rel.len());
    let mut out = string_of(&rt);
    if rt.len() > 0 && rt[rt.len() - 1] != '/' {
        push_char(&mut out, '/');
    }
    push_chars(&mut out, &tail);
    out
}

/// A cgroup limit file: `None` for `max` or an empty file, else its number.
pub open spec fn limit_spec(content: Seq<char>) -> Option<u64> {
    let t = trim(content);
    if t == seq!['m', 'a', 'x'] || t.len() == 0 {
        None
    } else {
        parse_u64_spec(t)
    }
}

/// Reads a cgroup limit value (`memory.max`, `pids.max`, ...).
pub fn parse_limit_u64(content: &str) -> (r: Option<u64>)
    ensures
        r == limit_spec(content@),
{
    let v = chars_of(content);
    let t = trim_chars(&v);
    if t.len() == 0 || (t.len() == 3 && t[0] == 'm' && t[1] == 'a' && t[2] == 'x') {
        proof {
            if t.len() == 3 {
                assert(t@ =~= seq!['m', 'a', 'x']);
            }
        }
        return None;
    }
    proof {
        if t@ == seq!['m', 'a', 'x'] {
            assert(t@[0] == 'm' && t@[1] == 'a' && t@[2] == 'x');
        }
    }
    parse_u64(&t)
}

/// The value of the last `key value` line of `ls` whose key is `key` and
/// whose value reads as a number; zero when there is none.
pub open spec fn last_value(ls: Seq<Seq<char>>, key: Seq<char>) -> u64
    decreases ls.len(),
{
    if ls.len() == 0 {
        0
    } else {
        match kv(ls.last()) {
            Some((k, v)) => if k == key {
                v
            } else {
                last_value(ls.drop_last(), key)
            },
            None => last_value(ls.drop_last(), key),
        }
    }
}

/// The value of the first such line; zero when there is none.
pub open spec fn first_value(ls: Seq<Seq<char>>, key: Seq<char>) -> u64
    decreases ls.len(),
{
    if ls.len() == 0 {
        0
    } else {
        match kv(ls[0]) {
            Some((k, v)) => if k == key {
                v
            } else {
                first_value(ls.drop_first(), key)
            },
            None => first_value(ls.drop_first(), key),
        }
    }
}

/// The sum of the values of the lines whose key starts with `prefix`.
pub open spec fn prefix_sum(ls: Seq<Seq<char>>, prefix: Seq<char>) -> nat
    decreases ls.len(),
{
    if ls.len() == 0 {
        0
    } else {
        prefix_sum(ls.drop_last(), prefix) + match kv(ls.last()) {
            Some((k, v)) => if starts_with(k, prefix) {
                v as nat
            } else {
                0
            },
            None => 0,
        }
    }
}

fn update_last(cur: u64, kvl: &Option<(Vec<char>, u64)>, key: &Vec<char>) -> (r: u64)
    ensures
        r == match kvl {
            Some((k, v)) => if k@ == key@ {
                *v
            } else {
                cur
            },
            None => cur,
        },
{
    match kvl {
        Some((k, v)) => if chars_eq(k, key) {
            *v
        } else {
            cur
        },
        None => cur,
    }
}

/// The counters of a cgroup `cpu.stat` file: usage, user, system, periods,
/// throttled periods and throttled time, each from the last line that
/// names it, zero when absent.
pub open spec fn cpu_stat_spec(content: Seq<char>) -> (u64, u64, u64, u64, u64, u64) {
    let ls = lines(content);
    (
        last_value(ls, "usage_usec"@),
        last_value(ls, "user_usec"@),
        last_value(ls, "system_usec"@),
        last_value(ls, "nr_periods"@),
        last_value(ls, "nr_throttled"@),
        last_value(ls, "throttled_usec"@),
    )
}

/// Reads a cgroup `cpu.stat` file.
pub fn parse_cpu_stat(content: &str) -> (r: (u64, u64, u64, u64, u64, u64))
    ensures
        r == cpu_stat_spec(content@),
{
    let v = chars_of(content);
    let ls = split_lines(&v);
    let ghost all = lines(v@);
    let k0 = chars_of("usage_usec");
    let k1 = chars_of("user_usec");
    let k2 = chars_of("system_usec");
    let k3 = chars_of("nr_periods");
    let k4 = chars_of("nr_throttled");
    let k5 = chars_of("throttled_usec");
    let mut r0: u64 = 0;
    let mut r1: u64 = 0;
    let mut r2: u64 = 0;
    let mut r3: u64 = 0;
    let mut r4: u64 = 0;
    let mut r5: u64 = 0;
    let mut i: usize = 0;
    while i < ls.len()
        invariant
            i <= ls.len(),
            all == views(ls@),
            r0 == last_value(all.take(i as int), k0@),
            r1 == last_value(all.take(i as int), k1@),
            r2 == last_value(all.take(i as int), k2@),
            r3 == last_value(all.take(i as int), k3@),
            r4 == last_value(all.take(i as int), k4@),
            r5 == last_value(all.take(i as int), k5@),
        decreases ls.len() - i,
    {
        assert(all.take(i + 1).drop_last() =~= all.take(i as int));
        assert(all.take(i + 1).last() == ls@[i as int]@);
        let kvl = line_kv(&ls[i]);
        r0 = update_last(r0, &kvl, &k0);
        r1 = update_last(r1, &kvl, &k1);
        r2 = update_last(r2, &kvl, &k2);
        r3 = update_last(r3, &kvl, &k3);
        r4 = update_last(r4, &kvl, &k4);
        r5 = update_last(r5, &kvl, &k5);
        i += 1;
    }
    assert(all.take(ls.len() as int) =~= all);
    (r0, r1, r2, r3, r4, r5)
}

/// One field of `cpu.max`: `None` for `max`, else its number.
pub open spec fn cpu_max_part_spec(part: Seq<char>) -> Option<u64> {
    if part == seq!['m', 'a', 'x'] {
        None
    } else {
        parse_u64_spec(part)
    }
}

/// Reads one field of a `cpu.max` file.
pub fn parse_cpu_max_part(part: &str) -> (r: Option<u64>)
    ensures
        r == cpu_max_part_spec(part@),
{
    let v = chars_of(part);
    cpu_max_part_chars(&v)
}

fn cpu_max_part_chars(v: &Vec<char>) -> (r: Option<u64>)
    ensures
        r == cpu_max_part_spec(v@),
{
    if v.len() == 3 && v[0] == 'm' && v[1] == 'a' && v[2] == 'x' {
        assert(v@ =~= seq!['m', 'a', 'x']);
        return None;
    }
    proof {
        if v@ == seq!['m', 'a', 'x'] {
            assert(v@[0] == 'm' && v@[1] == 'a' && v@[2] == 'x');
        }
    }
    parse_u64(v)
}

/// A `cpu.max` file: quota and period, each `None` when absent or `max`.
pub open spec fn cpu_max_spec(content: Seq<char>) -> (Option<u64>, Option<u64>) {
    let tk = tokens(content);
    (
        if tk.len() > 0 {
            cpu_max_part_spec(tk[0])
        } else {
            None
        },
        if tk.len() > 1 {
            cpu_max_part_spec(tk[1])
        } else {
            None
        },
    )
}

/// Reads a cgroup `cpu.max` file.
pub fn parse_cpu_max(content: &str) -> (r: (Option<u64>, Option<u64>))
    ensures
        r == cpu_max_spec(content@),
{
    let v = chars_of(content);
    let tk = split_ws(&v);
    assert(views(tk@).len() == tk@.len());
    assert(forall|i: int| 0 <= i < tk@.len() ==> views(tk@)[i] == tk@[i]@);
    let quota = if tk.len() > 0 {
        cpu_max_part_chars(&tk[0])
    } else {
        None
    };
    let period = if tk.len() > 1 {
        cpu_max_part_chars(&tk[1])
    } else {
        None
    };
    (quota, period)
}

// ─── Sockets ────────────────────────────────────────────────────────────────
/// The TCP state bucket of a `/proc/net/tcp` state code: 1 for `01`
/// (established) through 11 for `0B` (closing), 0 for any other code.
pub open spec fn tcp_bucket(st: Seq<char>) -> int {
    if st == seq!['0', '1'] {
        1
    } else if st == seq!['0', '2'] {
        2
    } else if st == seq!['0', '3'] {
        3
    } else if st == seq!['0', '4'] {
        4
    } else if st == seq!['0', '5'] {
        5
    } else if st == seq!['0', '6'] {
        6
    } else if st == seq!['0', '7'] {
        7
    } else if st == seq!['0', '8'] {
        8
    } else if st == seq!['0', '9'] {
        9
    } else if st == seq!['0', 'A'] {
        10
    } else if st == seq!['0', 'B'] {
        11
    } else {
        0
    }
}

/// The UDP bucket of a state code: 1 for `01`, 7 for `07`, 0 otherwise.
pub open spec fn udp_bucket(st: Seq<char>) -> int {
    if st == seq!['0', '1'] {
        1
    } else if st == seq!['0', '7'] {
        7
    } else {
        0
    }
}

/// A socket row: a line with at least four whitespace tokens.
pub open spec fn is_row(l: Seq<char>) -> bool {
    tokens(l).len() >= 4
}

/// The state code of a row: its fourth token.
pub open spec fn row_state(l: Seq<char>) -> Seq<char> {
    tokens(l)[3]
}

/// The number of rows among `ls`.
pub open spec fn row_count(ls: Seq<Seq<char>>) -> nat
    decreases ls.len(),
{
    if ls.len() == 0 {
        0
    } else {
        row_count(ls.drop_last()) + if is_row(ls.last()) {
            1nat
        } else {
            0nat
        }
    }
}

/// The number of rows among `ls` in TCP (`udp == false`) or UDP bucket `b`.
pub open spec fn bucket_count(ls: Seq<Seq<char>>, udp: bool, b: int) -> nat
    decreases ls.len(),
{
    if ls.len() == 0 {
        0
    } else {
        bucket_count(ls.drop_last(), udp, b) + if is_row(ls.last()) && (if udp {
            udp_bucket(row_state(ls.last()))
        } else {
            tcp_bucket(row_state(ls.last()))
        }) == b {
            1nat
        } else {
            0nat
        }
    }
}

/// The socket rows of a `/proc/net/{tcp,udp}` table: all lines but the header.
pub open spec fn table_rows(content: Seq<char>) -> Seq<Seq<char>> {
    if lines(content).len() == 0 {
        Seq::empty()
    } else {
        lines(content).skip(1)
    }
}

/// The counts after adding the rows of one table to `c`.
pub open spec fn add_table(c: RawNetConnections, rows: Seq<Seq<char>>, udp: bool) -> RawNetConnections {
    if udp {
        RawNetConnections {
            udp_total: (c.udp_total + row_count(rows)) as u32,
            udp_established: (c.udp_established + bucket_count(rows, true, 1)) as u32,
            udp_close: (c.udp_close + bucket_count(rows, true, 7)) as u32,
            udp_other: (c.udp_other + bucket_count(rows, true, 0)) as u32,
            ..c
        }
    } else {
        RawNetConnections {
            total: (c.total + row_count(rows)) as u32,
            established: (c.established + bucket_count(rows, false, 1)) as u32,
            tcp_syn_sent: (c.tcp_syn_sent + bucket_count(rows, false, 2)) as u32,
            tcp_syn_recv: (c.tcp_syn_recv + bucket_count(rows, false, 3)) as u32,
            tcp_fin_wait1: (c.tcp_fin_wait1 + bucket_count(rows, false, 4)) as u32,
            tcp_fin_wait2: (c.tcp_fin_wait2 + bucket_count(rows, false, 5)) as u32,
            tcp_time_wait: (c.tcp_time_wait + bucket_count(rows, false, 6)) as u32,
            tcp_close: (c.tcp_close + bucket_count(rows, false, 7)) as u32,
            tcp_close_wait: (c.tcp_close_wait + bucket_count(rows, false, 8)) as u32,
            tcp_last_ack: (c.tcp_last_ack + bucket_count(rows, false, 9)) as u32,
            tcp_listen: (c.tcp_listen + bucket_count(rows, false, 10)) as u32,
            tcp_closing: (c.tcp_closing + bucket_count(rows, false, 11)) as u32,
            tcp_other: (c.tcp_other + bucket_count(rows, false, 0)) as u32,
            ..c
        }
    }
}

/// Whether the counts of `c` can take the rows without overflow.
pub open spec fn table_fits(c: RawNetConnections, rows: Seq<Seq<char>>, udp: bool) -> bool {
    if udp {
        &&& c.udp_total + row_count(rows) <= u32::MAX
        &&& c.udp_established + bucket_count(rows, true, 1) <= u32::MAX
        &&& c.udp_close + bucket_count(rows, true, 7) <= u32::MAX
        &&& c.udp_other + bucket_count(rows, true, 0) <= u32::MAX
    } else {
        &&& c.total + row_count(rows) <= u32::MAX
        &&& c.established + bucket_count(rows, false, 1) <= u32::MAX
        &&& c.tcp_syn_sent + bucket_count(rows, false, 2) <= u32::MAX
        &&& c.tcp_syn_recv + bucket_count(rows, false, 3) <= u32::MAX
        &&& c.tcp_fin_wait1 + bucket_count(rows, false, 4) <= u32::MAX
        &&& c.tcp_fin_wait2 + bucket_count(rows, false, 5) <= u32::MAX
        &&& c.tcp_time_wait + bucket_count(rows, false, 6) <= u32::MAX
        &&& c.tcp_close + bucket_count(rows, false, 7) <= u32::MAX
        &&& c.tcp_close_wait + bucket_count(rows, false, 8) <= u32::MAX
        &&& c.tcp_last_ack + bucket_count(rows, false, 9) <= u32::MAX
        &&& c.tcp_listen + bucket_count(rows, false, 10) <= u32::MAX
        &&& c.tcp_closing + bucket_count(rows, false, 11) <= u32::MAX
        &&& c.tcp_other + bucket_count(rows, false, 0) <= u32::MAX
    }
}

proof fn lemma_counts_monotone(ls: Seq<Seq<char>>, i: int, udp: bool)
    requires
        0 <= i <= ls.len(),
    ensures
        row_count(ls.take(i)) <= row_count(ls),
        forall|b: int| bucket_count(ls.take(i), udp, b) <= #[trigger] bucket_count(ls, udp, b),
    decreases ls.len() - i,
{
    if i < ls.len() {
        lemma_counts_monotone(ls, i + 1, udp);
        assert(ls.take(i + 1).drop_last() =~= ls.take(i));
    } else {
        assert(ls.take(i) =~= ls);
    }
}

/// The TCP buckets of `ls` together hold each row once.
pub open spec fn tcp_bucket_sum(ls: Seq<Seq<char>>) -> nat {
    bucket_count(ls, false, 0) + bucket_count(ls, false, 1) + bucket_count(ls, false, 2) + bucket_count(
        ls,
        false,
        3,
    ) + bucket_count(ls, false, 4) + bucket_count(ls, false, 5) + bucket_count(ls, false, 6)
        + bucket_count(ls, false, 7) + bucket_count(ls, false, 8) + bucket_count(ls, false, 9)
        + bucket_count(ls, false, 10) + bucket_count(ls, false, 11)
}

/// The UDP buckets of `ls`, together.
pub open spec fn udp_bucket_sum(ls: Seq<Seq<char>>) -> nat {
    bucket_count(ls, true, 0) + bucket_count(ls, true, 1) + bucket_count(ls, true, 7)
}

proof fn lemma_buckets_sum(ls: Seq<Seq<char>>)
    ensures
        tcp_bucket_sum(ls) == row_count(ls),
        udp_bucket_sum(ls) == row_count(ls),
    decreases ls.len(),
{
    if ls.len() > 0 {
        lemma_buckets_sum(ls.drop_last());
    }
}

/// Adding a table grows the buckets of its protocol, together, by exactly
/// the number of its rows, as much as its total; the other protocol's
/// counts and the retransmissions stay as they were.
pub proof fn law_socket_buckets_add_up(c: RawNetConnections, content: Seq<char>, is_udp: bool)
    requires
        table_fits(c, table_rows(content), is_udp),
    ensures
        ({
            let r = add_table(c, table_rows(content), is_udp);
            let n = row_count(table_rows(content));
            &&& r.retrans_segs == c.retrans_segs
            &&& if is_udp {
                &&& r.udp_total == c.udp_total + n
                &&& r.udp_established + r.udp_close + r.udp_other == c.udp_established + c.udp_close + c.udp_other + n
                &&& r.total == c.total && r.established == c.established && r.tcp_syn_sent == c.tcp_syn_sent
                &&& r.tcp_syn_recv == c.tcp_syn_recv && r.tcp_fin_wait1 == c.tcp_fin_wait1
                &&& r.tcp_fin_wait2 == c.tcp_fin_wait2 && r.tcp_time_wait == c.tcp_time_wait
                &&& r.tcp_close == c.tcp_close && r.tcp_close_wait == c.tcp_close_wait
                &&& r.tcp_last_ack == c.tcp_last_ack && r.tcp_listen == c.tcp_listen
                &&& r.tcp_closing == c.tcp_closing && r.tcp_other == c.tcp_other
            } else {
                &&& r.total == c.total + n
                &&& r.established + r.tcp_syn_sent + r.tcp_syn_recv + r.tcp_fin_wait1 + r.tcp_fin_wait2
                    + r.tcp_time_wait + r.tcp_close + r.tcp_close_wait + r.tcp_last_ack + r.tcp_listen
                    + r.tcp_closing + r.tcp_other == c.established + c.tcp_syn_sent + c.tcp_syn_recv
                    + c.tcp_fin_wait1 + c.tcp_fin_wait2 + c.tcp_time_wait + c.tcp_close + c.tcp_close_wait
                    + c.tcp_last_ack + c.tcp_listen + c.tcp_closing + c.tcp_other + n
                &&& r.udp_total == c.udp_total && r.udp_established == c.udp_established
                &&& r.udp_close == c.udp_close && r.udp_other == c.udp_other
            }
        }),
{
    lemma_buckets_sum(table_rows(content));
}

fn code_is(st: &Vec<char>, a: char, b: char) -> (r: bool)
    ensures
        r == (st@ == seq![a, b]),
{
    let r = st.len() == 2 && st[0] == a && st[1] == b;
    proof {
        if r {
            assert(st@ =~= seq![a, b]);
        }
        if st@ == seq![a, b] {
            assert(st@[0] == a && st@[1] == b);
        }
    }
    r
}

fn tcp_bucket_exec(st: &Vec<char>) -> (r: u8)
    ensures
        r == tcp_bucket(st@),
{
    if code_is(st, '0', '1') {
        1
    } else if code_is(st, '0', '2') {
        2
    } else if code_is(st, '0', '3') {
        3
    } else if code_is(st, '0', '4') {
        4
    } else if code_is(st, '0', '5') {
        5
    } else if code_is(st, '0', '6') {
        6
    } else if code_is(st, '0', '7') {
        7
    } else if code_is(st, '0', '8') {
        8
    } else if code_is(st, '0', '9') {
        9
    } else if code_is(st, '0', 'A') {
        10
    } else if code_is(st, '0', 'B') {
        11
    } else {
        0
    }
}

fn udp_bucket_exec(st: &Vec<char>) -> (r: u8)
    ensures
        r == udp_bucket(st@),
{
    if code_is(st, '0', '1') {
        1
    } else if code_is(st, '0', '7') {
        7
    } else {
        0
    }
}

/// Adds the sockets of one `/proc/net/{tcp,tcp6,udp,udp6}` table to the
/// counts: every line after the header with at least four fields is a
/// socket, counted in total and in the bucket of its state code.
pub fn parse_socket_table(content: &str, is_udp: bool, connections: &mut RawNetConnections)
    requires
        table_fits(*old(connections), table_rows(content@), is_udp),
    ensures
        *final(connections) == add_table(*old(connections), table_rows(content@), is_udp),
{
    let v = chars_of(content);
    let ls = split_lines(&v);
    let ghost all = lines(v@);
    let ghost c0 = *connections;
    if ls.len() == 0 {
        assert(add_table(c0, Seq::empty(), is_udp) == c0);
        return ;
    }
    let ghost rows = all.skip(1);
    let mut i: usize = 1;
    proof {
        assert(rows.take(0) =~= Seq::<Seq<char>>::empty());
    }
    while i < ls.len()
        invariant
            1 <= i <= ls.len(),
            all == views(ls@),
            rows == all.skip(1),
            table_fits(c0, rows, is_udp),
            *connections == add_table(c0, rows.take(i - 1), is_udp),
        decreases ls.len() - i,
    {
        let ghost pre = rows.take(i - 1);
        let ghost cur = rows.take(i as int);
        assert(cur.drop_last() =~= pre);
        assert(cur.last() == ls@[i as int]@);
        proof {
            lemma_counts_monotone(rows, i as int, is_udp);
        }
        let tk = split_ws(&ls[i]);
        assert(views(tk@).len() == tk@.len());
        if tk.len() >= 4 {
            assert(views(tk@)[3] == tk@[3]@);
            if is_udp {
                connections.udp_total += 1;
                let b = udp_bucket_exec(&tk[3]);
                if b == 1 {
                    connections.udp_established += 1;
                } else if b == 7 {
                    connections.udp_close += 1;
                } else {
                    connections.udp_other += 1;
                }
            } else {
                connections.total += 1;
                let b = tcp_bucket_exec(&tk[3]);
                if b == 1 {
                    connections.established += 1;
                } else if b == 2 {
                    connections.tcp_syn_sent += 1;
                } else if b == 3 {
                    connections.tcp_syn_recv += 1;
                } else if b == 4 {
                    connections.tcp_fin_wait1 += 1;
                } else if b == 5 {
                    connections.tcp_fin_wait2 += 1;
                } else if b == 6 {
                    connections.tcp_time_wait += 1;
                } else if b == 7 {
                    connections.tcp_close += 1;
                } else if b == 8 {
                    connections.tcp_close_wait += 1;
                } else if b == 9 {
                    connections.tcp_last_ack += 1;
                } else if b == 10 {
                    connections.tcp_listen += 1;
                } else if b == 11 {
                    connections.tcp_closing += 1;
                } else {
                    connections.tcp_other += 1;
                }
            }
        }
        i += 1;
    }
    assert(rows.take(ls.len() - 1) =~= rows);
}

// ─── vmstat ─────────────────────────────────────────────────────────────────
/// The first value of `key` in a `/proc/vmstat`-style text, zero when absent.
pub fn parse_vmstat_counter(content: &str, key: &str) -> (r: u64)
    ensures
        r == first_value(lines(content@), key@),
{
    let v = chars_of(content);
    let kk = chars_of(key);
    let ls = split_lines(&v);
    let ghost all = lines(v@);
    let mut i: usize = 0;
    assert(all.skip(0) =~= all);
    while i < ls.len()
        invariant
            i <= ls.len(),
            all == views(ls@),
            all == lines(content@),
            kk@ == key@,
            first_value(all, kk@) == first_value(all.skip(i as int), kk@),
        decreases ls.len() - i,
    {
        assert(all.skip(i as int)[0] == ls@[i as int]@);
        assert(all.skip(i as int).drop_first() =~= all.skip(i + 1));
        match line_kv(&ls[i]) {
            Some((k, value)) => {
                if chars_eq(&k, &kk) {
                    assert(kv(all.skip(i as int)[0]) == Some((kk@, value)));
                    assert(first_value(all.skip(i as int), kk@) == value);
                    return value;
                }
            },
            None => {},
        }
        i += 1;
    }
    0
}

/// The sum of the values whose key starts with `prefix` (the sum must fit
/// in a `u64`).
pub fn parse_vmstat_sum(content: &str, prefix: &str) -> (r: u64)
    requires
        prefix_sum(lines(content@), prefix@) <= u64::MAX,
    ensures
        r == prefix_sum(lines(content@), prefix@),
{
    let v = chars_of(content);
    let pp = chars_of(prefix);
    let ls = split_lines(&v);
    let ghost all = lines(v@);
    let mut total: u64 = 0;
    let mut i: usize = 0;
    while i < ls.len()
        invariant
            i <= ls.len(),
            all == views(ls@),
            prefix_sum(all, pp@) <= u64::MAX,
            total == prefix_sum(all.take(i as int), pp@),
        decreases ls.len() - i,
    {
        assert(all.take(i + 1).drop_last() =~= all.take(i as int));
        assert(all.take(i + 1).last() == ls@[i as int]@);
        proof {
            lemma_prefix_sum_monotone(all, pp@, i + 1);
        }
        match line_kv(&ls[i]) {
            Some((k, value)) => {
                if starts_with_exec(&k, &pp) {
                    total = total + value;
                }
            },
            None => {},
        }
        i += 1;
    }
    assert(all.take(ls.len() as int) =~= all);
    total
}

/// The sum of the values whose key starts with `prefix`, or nothing when it
/// does not fit in a `u64`.
pub fn parse_vmstat_sum_checked(content: &str, prefix: &str) -> (r: Option<u64>)
    ensures
        match r {
            Some(v) => v == prefix_sum(lines(content@), prefix@),
            None => prefix_sum(lines(content@), prefix@) > u64::MAX,
        },
{
    let v = chars_of(content);
    let pp = chars_of(prefix);
    let ls = split_lines(&v);
    let ghost all = lines(v@);
    let mut total: u64 = 0;
    let mut i: usize = 0;
    while i < ls.len()
        invariant
            i <= ls.len(),
            all == views(ls@),
            all == lines(content@),
            pp@ == prefix@,
            total == prefix_sum(all.take(i as int), pp@),
        decreases ls.len() - i,
    {
        assert(all.take(i + 1).drop_last() =~= all.take(i as int));
        assert(all.take(i + 1).last() == ls@[i as int]@);
        match line_kv(&ls[i]) {
            Some((k, value)) => {
                if starts_with_exec(&k, &pp) {
                    match total.checked_add(value) {
                        Some(t) => {
                            total = t;
                        },
                        None => {
                            proof {
                                lemma_prefix_sum_monotone(all, pp@, i + 1);
                            }
                            return None;
                        },
                    }
                }
            },
            None => {},
        }
        i += 1;
    }
    assert(all.take(ls.len() as int) =~= all);
    Some(total)
}

proof fn lemma_prefix_sum_monotone(ls: Seq<Seq<char>>, p: Seq<char>, i: int)
    requires
        0 <= i <= ls.len(),
    ensures
        prefix_sum(ls.take(i), p) <= prefix_sum(ls, p),
    decreases ls.len() - i,
{
    if i < ls.len() {
        lemma_prefix_sum_monotone(ls, p, i + 1);
        assert(ls.take(i + 1).drop_last() =~= ls.take(i));
    } else {
        assert(ls.take(i) =~= ls);
    }
}


// ─── /proc/diskstats ────────────────────────────────────────────────────────
/// Counters of a disk reading: reads, reads merged, sectors read, read
/// time, writes, writes merged, sectors written, write time, busy time,
/// weighted busy time.
pub type DiskCounters = (u64, u64, u64, u64, u64, u64, u64, u64, u64, u64);

pub open spec fn disk_view(s: RawDiskStat) -> (Seq<char>, DiskCounters) {
    (
        s.device@,
        (
            s.reads_completed,
            s.reads_merged,
            s.reads_sectors,
            s.reads_time_ms,
            s.writes_completed,
            s.writes_merged,
            s.writes_sectors,
            s.writes_time_ms,
            s.io_ticks,
            s.weighted_io_time_ms,
        ),
    )
}

/// Whether a device is a loop, RAM or compressed-RAM device.
pub open spec fn is_virtual_disk(d: Seq<char>) -> bool {
    starts_with(d, "loop"@) || starts_with(d, "ram"@) || starts_with(d, "zram"@)
}

/// One line of `/proc/diskstats`: at least 14 fields, a whole disk (not a
/// partition, nor a virtual device); counters that do not read are zero.
pub open spec fn diskstat_line(l: Seq<char>) -> Option<(Seq<char>, DiskCounters)> {
    let p = tokens(l);
    if p.len() < 14 || is_virtual_disk(p[2]) || parent_device(p[2]) != p[2] {
        None
    } else {
        Some(
            (
                p[2],
                (
                    or_zero(p[3]),
                    or_zero(p[4]),
                    or_zero(p[5]),
                    or_zero(p[6]),
                    or_zero(p[7]),
                    or_zero(p[8]),
                    or_zero(p[9]),
                    or_zero(p[10]),
                    or_zero(p[12]),
                    or_zero(p[13]),
                ),
            ),
        )
    }
}

pub open spec fn diskstat_lines(ls: Seq<Seq<char>>) -> Seq<(Seq<char>, DiskCounters)>
    decreases ls.len(),
{
    if ls.len() == 0 {
        Seq::empty()
    } else {
        diskstat_lines(ls.drop_last()) + match diskstat_line(ls.last()) {
            Some(x) => seq![x],
            None => Seq::empty(),
        }
    }
}

/// The number in a field, zero when the field does not read as one.
pub open spec fn field_number(t: Seq<char>) -> u64 {
    match parse_u64_spec(t) {
        Some(v) => v,
        None => 0,
    }
}

/// A reading `r` is the one of the line with fields `p`, each counter from
/// its own column of `/proc/diskstats`: the device name is field 2; then
/// reads completed (3), reads merged (4), sectors read (5), time reading
/// (6), writes completed (7), writes merged (8), sectors written (9), time
/// writing (10), time doing I/O (12) and weighted time doing I/O (13).
pub open spec fn read_from_columns(r: (Seq<char>, DiskCounters), p: Seq<Seq<char>>) -> bool {
    &&& p.len() >= 14
    &&& r.0 == p[2]
    &&& r.1.0 == field_number(p[3])
    &&& r.1.1 == field_number(p[4])
    &&& r.1.2 == field_number(p[5])
    &&& r.1.3 == field_number(p[6])
    &&& r.1.4 == field_number(p[7])
    &&& r.1.5 == field_number(p[8])
    &&& r.1.6 == field_number(p[9])
    &&& r.1.7 == field_number(p[10])
    &&& r.1.8 == field_number(p[12])
    &&& r.1.9 == field_number(p[13])
}

/// Each reading comes from a line of the file, every counter from its own
/// column.
pub proof fn law_diskstats_readings_come_from_their_columns(ls: Seq<Seq<char>>, k: int)
    requires
        0 <= k < diskstat_lines(ls).len(),
    ensures
        exists|j: int| 0 <= j < ls.len() && #[trigger] read_from_columns(diskstat_lines(ls)[k], tokens(ls[j])),
    decreases ls.len(),
{
    let init = ls.drop_last();
    if k < diskstat_lines(init).len() {
        law_diskstats_readings_come_from_their_columns(init, k);
        let j = choose|j: int| 0 <= j < init.len() && #[trigger] read_from_columns(diskstat_lines(init)[k], tokens(init[j]));
        assert(ls[j] == init[j]);
        assert(read_from_columns(diskstat_lines(ls)[k], tokens(ls[j])));
    } else {
        let j = ls.len() - 1;
        assert(ls[j] == ls.last());
        assert(read_from_columns(diskstat_lines(ls)[k], tokens(ls[j])));
    }
}

/// Each line of a whole disk (at least 14 fields; not a partition, nor a
/// loop, RAM or compressed-RAM device) gives a reading of that device, every
/// counter from its own column.
pub proof fn law_diskstats_every_disk_line_is_read(ls: Seq<Seq<char>>, j: int)
    requires
        0 <= j < ls.len(),
        tokens(ls[j]).len() >= 14,
        !is_virtual_disk(tokens(ls[j])[2]),
        parent_device(tokens(ls[j])[2]) == tokens(ls[j])[2],
    ensures
        exists|k: int|
            0 <= k < diskstat_lines(ls).len() && #[trigger] read_from_columns(diskstat_lines(ls)[k], tokens(ls[j])),
    decreases ls.len(),
{
    let init = ls.drop_last();
    if j < init.len() {
        assert(ls[j] == init[j]);
        law_diskstats_every_disk_line_is_read(init, j);
        let k = choose|k: int|
            0 <= k < diskstat_lines(init).len() && #[trigger] read_from_columns(diskstat_lines(init)[k], tokens(init[j]));
        assert(diskstat_lines(ls)[k] == diskstat_lines(init)[k]);
        assert(read_from_columns(diskstat_lines(ls)[k], tokens(ls[j])));
    } else {
        let k = diskstat_lines(init).len() as int;
        assert(read_from_columns(diskstat_lines(ls)[k], tokens(ls[j])));
    }
}

/// The readings of the whole disks in `/proc/diskstats`, in order.
pub fn parse_diskstats(content: &str) -> (r: Vec<RawDiskStat>)
    ensures
        r@.map_values(|s: RawDiskStat| disk_view(s)) == diskstat_lines(lines(content@)),
{
    let ls = split_lines(&chars_of(content));
    let ghost all = views(ls@);
    let mut out: Vec<RawDiskStat> = Vec::new();
    let mut i: usize = 0;
    while i < ls.len()
        invariant
            i <= ls.len(),
            all == views(ls@),
            out@.map_values(|s: RawDiskStat| disk_view(s)) == diskstat_lines(all.take(i as int)),
        decreases ls.len() - i,
    {
        let ghost t = all.take(i + 1);
        assert(t.drop_last() =~= all.take(i as int));
        assert(t.last() == ls@[i as int]@);
        let p = split_ws(&ls[i]);
        let ghost pv = views(p@);
        assert(pv.len() == p@.len());
        if p.len() >= 14 {
            assert(forall|k: int| 0 <= k < p@.len() ==> pv[k] == p@[k]@);
            let dev = string_of(&p[2]);
            let virt = starts_with_exec(&p[2], &chars_of("loop")) || starts_with_exec(
                &p[2],
                &chars_of("ram"),
            ) || starts_with_exec(&p[2], &chars_of("zram"));
            let parent = strip_partition_suffix(dev.as_str());
            if !virt && chars_eq(&chars_of(parent.as_str()), &p[2]) {
                let st = RawDiskStat {
                    device: dev,
                    reads_completed: parse_or_zero(&p[3]),
                    reads_merged: parse_or_zero(&p[4]),
                    reads_sectors: parse_or_zero(&p[5]),
                    reads_time_ms: parse_or_zero(&p[6]),
                    writes_completed: parse_or_zero(&p[7]),
                    writes_merged: parse_or_zero(&p[8]),
                    writes_sectors: parse_or_zero(&p[9]),
                    writes_time_ms: parse_or_zero(&p[10]),
                    io_ticks: parse_or_zero(&p[12]),
                    weighted_io_time_ms: parse_or_zero(&p[13]),
                };
                let ghost before = out@;
                out.push(st);
                assert(out@.map_values(|s: RawDiskStat| disk_view(s)) =~= before.map_values(
                    |s: RawDiskStat| disk_view(s),
                ).push(disk_view(st)));
            }
        }
        i += 1;
    }
    assert(all.take(ls.len() as int) =~= all);
    out
}

// ─── /proc/net/dev ──────────────────────────────────────────────────────────
/// The fields of `ts` that read as numbers, in order.
pub open spec fn numbers(ts: Seq<Seq<char>>) -> Seq<u64>
    decreases ts.len(),
{
    if ts.len() == 0 {
        Seq::empty()
    } else {
        numbers(ts.drop_last()) + match parse_u64_spec(ts.last()) {
            Some(v) => seq![v],
            None => Seq::empty(),
        }
    }
}

pub type NetCounters = (u64, u64, u64, u64, u64, u64, u64, u64);

pub open spec fn net_dev_view(s: RawNetStat) -> (Seq<char>, NetCounters) {
    (
        s.interface@,
        (s.rx_bytes, s.rx_packets, s.rx_errors, s.rx_dropped, s.tx_bytes, s.tx_packets, s.tx_errors, s.tx_dropped),
    )
}

/// One interface line of `/proc/net/dev`: `name: counters`, not the
/// loopback, with at least 16 readable counters.
pub open spec fn net_dev_line(raw: Seq<char>) -> Option<(Seq<char>, NetCounters)> {
    let l = trim(raw);
    match index_of(l, ':') {
        Some(c) => {
            let name = trim(l.take(c));
            let n = numbers(tokens(l.skip(c + 1)));
            if name == seq!['l', 'o'] || n.len() < 16 {
                None
            } else {
                Some((name, (n[0], n[1], n[2], n[3], n[8], n[9], n[10], n[11])))
            }
        },
        None => None,
    }
}

pub open spec fn net_dev_lines(ls: Seq<Seq<char>>) -> Seq<(Seq<char>, NetCounters)>
    decreases ls.len(),
{
    if ls.len() == 0 {
        Seq::empty()
    } else {
        net_dev_lines(ls.drop_last()) + match net_dev_line(ls.last()) {
            Some(x) => seq![x],
            None => Seq::empty(),
        }
    }
}

fn numbers_exec(ts: &Vec<Vec<char>>) -> (r: Vec<u64>)
    ensures
        r@ == numbers(views(ts@)),
{
    let ghost tv = views(ts@);
    let mut out: Vec<u64> = Vec::new();
    let mut i: usize = 0;
    while i < ts.len()
        invariant
            i <= ts.len(),
            tv == views(ts@),
            out@ == numbers(tv.take(i as int)),
        decreases ts.len() - i,
    {
        assert(tv.take(i + 1).drop_last() =~= tv.take(i as int));
        assert(tv.take(i + 1).last() == ts@[i as int]@);
        match parse_u64(&ts[i]) {
            Some(v) => {
                out.push(v);
            },
            None => {},
        }
        i += 1;
    }
    assert(tv.take(ts.len() as int) =~= tv);
    out
}

/// The readings of the interfaces in `/proc/net/dev` (its two header lines
/// skipped), in order.
pub fn parse_net_dev(content: &str) -> (r: Vec<RawNetStat>)
    ensures
        r@.map_values(|s: RawNetStat| net_dev_view(s)) == net_dev_lines(lines(content@).skip(
            if lines(content@).len() >= 2 {
                2int
            } else {
                lines(content@).len() as int
            },
        )),
{
    let ls = split_lines(&chars_of(content));
    let ghost all = views(ls@);
    let start: usize = if ls.len() >= 2 {
        2
    } else {
        ls.len()
    };
    let ghost body = all.skip(start as int);
    let mut out: Vec<RawNetStat> = Vec::new();
    let mut i: usize = start;
    assert(body.take(0) =~= Seq::<Seq<char>>::empty());
    while i < ls.len()
        invariant
            start <= i <= ls.len(),
            all == views(ls@),
            body == all.skip(start as int),
            out@.map_values(|s: RawNetStat| net_dev_view(s)) == net_dev_lines(body.take(i - start)),
        decreases ls.len() - i,
    {
        let ghost t = body.take(i - start + 1);
        assert(t.drop_last() =~= body.take(i - start));
        assert(t.last() == ls@[i as int]@);
        let l = trim_chars(&ls[i]);
        match index_of_from(&l, 0, ':') {
            Some(c) => {
                assert(l@.skip(0) =~= l@);
                let head = slice_of(&l, 0, c);
                assert(head@ =~= l@.take(c as int));
                let name = trim_chars(&head);
                let rest = slice_of(&l, c + 1, l.len());
                assert(rest@ =~= l@.skip(c + 1));
                let n = numbers_exec(&split_ws(&rest));
                let lo = name.len() == 2 && name[0] == 'l' && name[1] == 'o';
                proof {
                    if lo {
                        assert(name@ =~= seq!['l', 'o']);
                    }
                    if name@ == seq!['l', 'o'] {
                        assert(name@[0] == 'l');
                    }
                }
                if !lo && n.len() >= 16 {
                    let st = RawNetStat {
                        interface: string_of(&name),
                        rx_bytes: n[0],
                        rx_packets: n[1],
                        rx_errors: n[2],
                        rx_dropped: n[3],
                        tx_bytes: n[8],
                        tx_packets: n[9],
                        tx_errors: n[10],
                        tx_dropped: n[11],
                    };
                    let ghost before = out@;
                    out.push(st);
                    assert(out@.map_values(|s: RawNetStat| net_dev_view(s)) =~= before.map_values(
                        |s: RawNetStat| net_dev_view(s),
                    ).push(net_dev_view(st)));
                }
            },
            None => {
                assert(l@.skip(0) =~= l@);
            },
        }
        i += 1;
    }
    assert(body.take(ls.len() - start) =~= body);
    out
}


// ─── /proc/mounts ───────────────────────────────────────────────────────────
/// What one line of `/proc/mounts` adds to the mount map: a `/dev/` device
/// (named without that prefix) and its mount point, and the same mount
/// point for the whole disk of a partition.
pub open spec fn mount_line_pairs(l: Seq<char>) -> Seq<(Seq<char>, Seq<char>)> {
    let p = tokens(l);
    if p.len() < 2 || !starts_with(p[0], "/dev/"@) {
        Seq::empty()
    } else {
        let dev = p[0].skip(5);
        seq![(dev, p[1])] + if parent_device(dev) != dev {
            seq![(parent_device(dev), p[1])]
        } else {
            Seq::empty()
        }
    }
}

pub open spec fn mount_pairs(ls: Seq<Seq<char>>) -> Seq<(Seq<char>, Seq<char>)>
    decreases ls.len(),
{
    if ls.len() == 0 {
        Seq::empty()
    } else {
        mount_pairs(ls.drop_last()) + mount_line_pairs(ls.last())
    }
}

/// Device to mount point from `/proc/mounts`; the first mount of a device
/// (or of a partition of a disk) wins.
pub fn parse_mounts(content: &str) -> (r: Vec<(String, String)>)
    ensures
        keys_distinct(pair_views(r@)),
        forall|k: Seq<char>| #[trigger] lookup(pair_views(r@), k) == first_for(mount_pairs(lines(content@)), k),
{
    let ls = split_lines(&chars_of(content));
    let ghost all = views(ls@);
    let prefix = chars_of("/dev/");
    proof {
        reveal_strlit("/dev/");
    }
    let mut pairs: Vec<(String, String)> = Vec::new();
    let mut i: usize = 0;
    while i < ls.len()
        invariant
            i <= ls.len(),
            all == views(ls@),
            prefix@ == "/dev/"@,
            "/dev/"@.len() == 5,
            pair_views(pairs@) == mount_pairs(all.take(i as int)),
        decreases ls.len() - i,
    {
        let ghost t = all.take(i + 1);
        assert(t.drop_last() =~= all.take(i as int));
        assert(t.last() == ls@[i as int]@);
        let p = split_ws(&ls[i]);
        let ghost pv = views(p@);
        assert(pv.len() == p@.len());
        let ghost before = pair_views(pairs@);
        if p.len() >= 2 && starts_with_exec(&p[0], &prefix) {
            assert(pv[0] == p@[0]@ && pv[1] == p@[1]@);
            let devv = slice_of(&p[0], 5, p[0].len());
            assert(devv@ =~= pv[0].skip(5));
            let dev = string_of(&devv);
            let parent = strip_partition_suffix(dev.as_str());
            let mount = string_of(&p[1]);
            let differs = !chars_eq(&chars_of(parent.as_str()), &devv);
            pairs.push((dev, mount.clone()));
            if differs {
                pairs.push((parent, mount));
            }
            assert(pair_views(pairs@) =~= before + mount_line_pairs(ls@[i as int]@));
        } else {
            proof {
                if p.len() >= 2 {
                    assert(pv[0] == p@[0]@);
                }
            }
            assert(pair_views(pairs@) =~= before + mount_line_pairs(ls@[i as int]@));
        }
        i += 1;
    }
    assert(all.take(ls.len() as int) =~= all);
    first_map(&pairs)
}


// ─── /proc/stat ─────────────────────────────────────────────────────────────
/// The per-core lines that follow the global line: the `cpuN` lines up to
/// the first line that is not one (the readable ones).
pub open spec fn core_lines(ls: Seq<Seq<char>>) -> Seq<RawCpuStat>
    decreases ls.len(),
{
    if ls.len() == 0 || !starts_with(ls[0], "cpu"@) || starts_with(ls[0], "cpu "@) {
        Seq::empty()
    } else {
        (match cpu_line_spec(ls[0]) {
            Some(s) => seq![s],
            None => Seq::empty(),
        }) + core_lines(ls.drop_first())
    }
}

/// The value of the last `<key> ` line (the first word after the key, read
/// as a number, 0 when it does not read); 0 without such a line.
pub open spec fn keyed_value(ls: Seq<Seq<char>>, key: Seq<char>) -> u64
    decreases ls.len(),
{
    if ls.len() == 0 {
        0
    } else if starts_with(ls.last(), key) {
        let rest = tokens(ls.last().skip(key.len() as int));
        if rest.len() > 0 {
            or_zero(rest[0])
        } else {
            0
        }
    } else {
        keyed_value(ls.drop_last(), key)
    }
}

/// What `/proc/stat` holds: the global CPU reading, the per-core readings,
/// the context switches and the interrupts.
pub struct ProcStat {
    pub global: RawCpuStat,
    pub cores: Vec<RawCpuStat>,
    pub context_switches: u64,
    pub interrupts: u64,
}

/// `/proc/stat` read: none when its first line is not a CPU line.
pub open spec fn proc_stat_spec(content: Seq<char>) -> Option<(RawCpuStat, Seq<RawCpuStat>, u64, u64)> {
    let ls = lines(content);
    if ls.len() == 0 {
        None
    } else {
        match cpu_line_spec(ls[0]) {
            Some(g) => Some(
                (g, core_lines(ls.drop_first()), keyed_value(ls, "ctxt "@), keyed_value(ls, "intr "@)),
            ),
            None => None,
        }
    }
}

fn keyed_value_exec(ls: &Vec<Vec<char>>, key: &Vec<char>) -> (r: u64)
    ensures
        r == keyed_value(views(ls@), key@),
{
    let ghost all = views(ls@);
    let mut i: usize = ls.len();
    assert(all.take(ls.len() as int) =~= all);
    while i > 0
        invariant
            i <= ls.len(),
            all == views(ls@),
            keyed_value(all, key@) == keyed_value(all.take(i as int), key@),
        decreases i,
    {
        let ghost t = all.take(i as int);
        assert(t.drop_last() =~= all.take(i - 1));
        assert(t.last() == ls@[i - 1]@);
        let l = &ls[i - 1];
        if starts_with_exec(l, key) {
            let body = slice_of(l, key.len(), l.len());
            assert(body@ =~= l@.skip(key.len() as int));
            let rest = split_ws(&body);
            assert(views(rest@).len() == rest@.len());
            if rest.len() > 0 {
                assert(views(rest@)[0] == rest@[0]@);
                return parse_or_zero(&rest[0]);
            }
            return 0;
        }
        i -= 1;
    }
    assert(all.take(0) =~= Seq::<Seq<char>>::empty());
    0
}

/// Reads `/proc/stat`.
pub fn parse_proc_stat(content: &str) -> (r: Option<ProcStat>)
    ensures
        match r {
            Some(p) => proc_stat_spec(content@) == Some(
                (p.global, p.cores@, p.context_switches, p.interrupts),
            ),
            None => proc_stat_spec(content@) is None,
        },
{
    let ls = split_lines(&chars_of(content));
    let ghost all = views(ls@);
    if ls.len() == 0 {
        return None;
    }
    assert(all[0] == ls@[0]@);
    let global = match parse_cpu_line(string_of(&ls[0]).as_str()) {
        Some(g) => g,
        None => return None,
    };
    let cpu = chars_of("cpu");
    let cpu_sp = chars_of("cpu ");
    let mut cores: Vec<RawCpuStat> = Vec::new();
    let ghost tail = all.drop_first();
    let mut i: usize = 1;
    assert(tail.skip(0) =~= tail);
    assert(cores@ + core_lines(tail) =~= core_lines(tail));
    while i < ls.len()
        invariant_except_break
            1 <= i <= ls.len(),
            all == views(ls@),
            tail == all.drop_first(),
            cpu@ == "cpu"@,
            cpu_sp@ == "cpu "@,
            core_lines(tail) == cores@ + core_lines(tail.skip(i - 1)),
        ensures
            core_lines(tail) == cores@,
        decreases ls.len() - i,
    {
        let ghost rest = tail.skip(i - 1);
        assert(rest[0] == ls@[i as int]@);
        assert(rest.drop_first() =~= tail.skip(i as int));
        if !starts_with_exec(&ls[i], &cpu) || starts_with_exec(&ls[i], &cpu_sp) {
            assert(core_lines(rest) =~= Seq::<RawCpuStat>::empty());
            assert(cores@ + Seq::<RawCpuStat>::empty() =~= cores@);
            break;
        }
        match parse_cpu_line(string_of(&ls[i]).as_str()) {
            Some(st) => {
                let ghost before = cores@;
                cores.push(st);
                assert(before + core_lines(rest) =~= cores@ + core_lines(tail.skip(i as int)));
            },
            None => {
                assert(core_lines(rest) =~= core_lines(tail.skip(i as int)));
            },
        }
        i += 1;
    }
    proof {
        if i == ls.len() {
            assert(tail.skip(i - 1) =~= Seq::<Seq<char>>::empty());
            assert(cores@ + Seq::<RawCpuStat>::empty() =~= cores@);
        }
    }
    let ctxt = keyed_value_exec(&ls, &chars_of("ctxt "));
    let intr = keyed_value_exec(&ls, &chars_of("intr "));
    Some(ProcStat { global, cores, context_switches: ctxt, interrupts: intr })
}

// ─── Socket totals ──────────────────────────────────────────────────────────
/// The sockets counted in a TCP state bucket.
pub open spec fn tcp_state_sum(c: RawNetConnections) -> int {
    c.established + c.tcp_syn_sent + c.tcp_syn_recv + c.tcp_fin_wait1 + c.tcp_fin_wait2
        + c.tcp_time_wait + c.tcp_close + c.tcp_close_wait + c.tcp_last_ack + c.tcp_listen
        + c.tcp_closing + c.tcp_other
}

/// After the socket tables: the total is at least the sum of the TCP
/// states (which must fit in a `u32`), and the retransmitted segments are
/// those of `/proc/net/snmp` (0 when unknown).
pub fn finish_connections(c: &mut RawNetConnections, retrans_segs: Option<u64>)
    requires
        tcp_state_sum(*old(c)) <= u32::MAX,
    ensures
        final(c).total == if old(c).total >= tcp_state_sum(*old(c)) {
            old(c).total as int
        } else {
            tcp_state_sum(*old(c))
        },
        final(c).retrans_segs == match retrans_segs {
            Some(v) => v,
            None => 0,
        },
        *final(c) == (RawNetConnections { total: final(c).total, retrans_segs: final(c).retrans_segs, ..*old(c) }),
{
    let sum = c.established + c.tcp_syn_sent + c.tcp_syn_recv + c.tcp_fin_wait1 + c.tcp_fin_wait2
        + c.tcp_time_wait + c.tcp_close + c.tcp_close_wait + c.tcp_last_ack + c.tcp_listen
        + c.tcp_closing + c.tcp_other;
    if sum > c.total {
        c.total = sum;
    }
    c.retrans_segs = match retrans_segs {
        Some(v) => v,
        None => 0,
    };
}


// ─── /proc/meminfo ──────────────────────────────────────────────────────────
/// The memory figures of `/proc/meminfo`, in KiB.
#[derive(Debug, Clone, Copy, PartialEq, Eq, Structural)]
pub struct MemoryCounters {
    pub total_kb: u64,
    pub used_kb: u64,
    pub free_kb: u64,
    pub available_kb: u64,
    pub cached_kb: u64,
    pub buffers_kb: u64,
    pub swap_total_kb: u64,
    pub swap_used_kb: u64,
    pub dirty_kb: u64,
}

pub open spec fn zero_memory() -> MemoryCounters {
    MemoryCounters {
        total_kb: 0,
        used_kb: 0,
        free_kb: 0,
        available_kb: 0,
        cached_kb: 0,
        buffers_kb: 0,
        swap_total_kb: 0,
        swap_used_kb: 0,
        dirty_kb: 0,
    }
}

/// What one `<key>: <value> kB` line sets; swap use is the swap total seen
/// so far less the free swap.
pub open spec fn meminfo_step(m: MemoryCounters, l: Seq<char>) -> MemoryCounters {
    match kv(l) {
        Some((key, v)) => if key == "MemTotal:"@ {
            MemoryCounters { total_kb: v, ..m }
        } else if key == "MemFree:"@ {
            MemoryCounters { free_kb: v, ..m }
        } else if key == "MemAvailable:"@ {
            MemoryCounters { available_kb: v, ..m }
        } else if key == "Buffers:"@ {
            MemoryCounters { buffers_kb: v, ..m }
        } else if key == "Cached:"@ {
            MemoryCounters { cached_kb: v, ..m }
        } else if key == "SwapTotal:"@ {
            MemoryCounters { swap_total_kb: v, ..m }
        } else if key == "SwapFree:"@ {
            MemoryCounters { swap_used_kb: crate::text::sat_sub_spec(m.swap_total_kb, v), ..m }
        } else if key == "Dirty:"@ {
            MemoryCounters { dirty_kb: v, ..m }
        } else {
            m
        },
        None => m,
    }
}

pub open spec fn meminfo_fold(ls: Seq<Seq<char>>) -> MemoryCounters
    decreases ls.len(),
{
    if ls.len() == 0 {
        zero_memory()
    } else {
        meminfo_step(meminfo_fold(ls.drop_last()), ls.last())
    }
}

/// `/proc/meminfo` read; used memory is what is not available.
pub open spec fn meminfo_spec(content: Seq<char>) -> MemoryCounters {
    let m = meminfo_fold(lines(content));
    MemoryCounters { used_kb: crate::text::sat_sub_spec(m.total_kb, m.available_kb), ..m }
}

pub fn parse_meminfo(content: &str) -> (r: MemoryCounters)
    ensures
        r == meminfo_spec(content@),
{
    let ls = split_lines(&chars_of(content));
    let ghost all = views(ls@);
    let mut m = MemoryCounters {
        total_kb: 0,
        used_kb: 0,
        free_kb: 0,
        available_kb: 0,
        cached_kb: 0,
        buffers_kb: 0,
        swap_total_kb: 0,
        swap_used_kb: 0,
        dirty_kb: 0,
    };
    let mut i: usize = 0;
    while i < ls.len()
        invariant
            i <= ls.len(),
            all == views(ls@),
            m == meminfo_fold(all.take(i as int)),
        decreases ls.len() - i,
    {
        let ghost t = all.take(i + 1);
        assert(t.drop_last() =~= all.take(i as int));
        assert(t.last() == ls@[i as int]@);
        match line_kv(&ls[i]) {
            Some((key, v)) => {
                if chars_eq_str(&key, "MemTotal:") {
                    m.total_kb = v;
                } else if chars_eq_str(&key, "MemFree:") {
                    m.free_kb = v;
                } else if chars_eq_str(&key, "MemAvailable:") {
                    m.available_kb = v;
                } else if chars_eq_str(&key, "Buffers:") {
                    m.buffers_kb = v;
                } else if chars_eq_str(&key, "Cached:") {
                    m.cached_kb = v;
                } else if chars_eq_str(&key, "SwapTotal:") {
                    m.swap_total_kb = v;
                } else if chars_eq_str(&key, "SwapFree:") {
                    m.swap_used_kb = m.swap_total_kb.saturating_sub(v);
                } else if chars_eq_str(&key, "Dirty:") {
                    m.dirty_kb = v;
                }
            },
            None => {},
        }
        i += 1;
    }
    assert(all.take(ls.len() as int) =~= all);
    m.used_kb = m.total_kb.saturating_sub(m.available_kb);
    m
}

// ─── Host identity files ────────────────────────────────────────────────────
/// The distribution name of `/etc/os-release`: the `PRETTY_NAME=` line
/// without its key and quotes, else `Linux`.
pub open spec fn pretty_name_of(ls: Seq<Seq<char>>) -> Option<Seq<char>>
    decreases ls.len(),
{
    if ls.len() == 0 {
        None
    } else if starts_with(ls[0], "PRETTY_NAME="@) {
        Some(
            crate::text::trim_end_char(
                trim_start_char(crate::text::trim_start_seq(ls[0], "PRETTY_NAME="@), '"'),
                '"',
            ),
        )
    } else {
        pretty_name_of(ls.drop_first())
    }
}

pub open spec fn os_name_spec(content: Seq<char>) -> Seq<char> {
    match pretty_name_of(lines(content)) {
        Some(n) => n,
        None => "Linux"@,
    }
}

pub fn os_pretty_name(content: &str) -> (r: String)
    ensures
        r@ == os_name_spec(content@),
{
    let ls = split_lines(&chars_of(content));
    let ghost all = views(ls@);
    let key = chars_of("PRETTY_NAME=");
    proof {
        reveal_strlit("PRETTY_NAME=");
    }
    let mut i: usize = 0;
    assert(all.skip(0) =~= all);
    while i < ls.len()
        invariant
            i <= ls.len(),
            all == views(ls@),
            key@ == "PRETTY_NAME="@,
            key@.len() > 0,
            all == lines(content@),
            pretty_name_of(all) == pretty_name_of(all.skip(i as int)),
        decreases ls.len() - i,
    {
        assert(all.skip(i as int)[0] == ls@[i as int]@);
        assert(all.skip(i as int).drop_first() =~= all.skip(i + 1));
        if starts_with_exec(&ls[i], &key) {
            let a = crate::text::trim_start_seq_exec(&ls[i], &key);
            let b = crate::text::trim_start_char_exec(&a, '"');
            let c = crate::text::trim_end_char_exec(&b, '"');
            return string_of(&c);
        }
        i += 1;
    }
    "Linux".to_owned()
}

/// The kernel release: the third word of `/proc/version`, else `unknown`.
pub fn kernel_release(content: &str) -> (r: String)
    ensures
        r@ == if tokens(content@).len() > 2 {
            tokens(content@)[2]
        } else {
            "unknown"@
        },
{
    let tk = split_ws(&chars_of(content));
    assert(views(tk@).len() == tk@.len());
    if tk.len() > 2 {
        assert(views(tk@)[2] == tk@[2]@);
        string_of(&tk[2])
    } else {
        "unknown".to_owned()
    }
}

/// The user name of `uid` in `/etc/passwd`: the first line whose third
/// `:`-field reads as `uid`.
pub open spec fn passwd_user_of(ls: Seq<Seq<char>>, uid: u32) -> Option<Seq<char>>
    decreases ls.len(),
{
    if ls.len() == 0 {
        None
    } else {
        let parts = crate::text::split_on(ls[0], ':');
        if parts.len() >= 3 && crate::text::parse_u32_spec(parts[2]) == Some(uid) {
            Some(parts[0])
        } else {
            passwd_user_of(ls.drop_first(), uid)
        }
    }
}

pub fn passwd_user(passwd: &str, uid: u32) -> (r: Option<String>)
    ensures
        match r {
            Some(s) => passwd_user_of(lines(passwd@), uid) == Some(s@),
            None => passwd_user_of(lines(passwd@), uid) is None,
        },
{
    let ls = split_lines(&chars_of(passwd));
    let ghost all = views(ls@);
    let mut i: usize = 0;
    assert(all.skip(0) =~= all);
    while i < ls.len()
        invariant
            i <= ls.len(),
            all == views(ls@),
            all == lines(passwd@),
            passwd_user_of(all, uid) == passwd_user_of(all.skip(i as int), uid),
        decreases ls.len() - i,
    {
        assert(all.skip(i as int)[0] == ls@[i as int]@);
        assert(all.skip(i as int).drop_first() =~= all.skip(i + 1));
        let parts = crate::text::split_char(&ls[i], ':');
        assert(views(parts@).len() == parts@.len());
        if parts.len() >= 3 {
            assert(views(parts@)[2] == parts@[2]@);
            assert(views(parts@)[0] == parts@[0]@);
            match crate::text::parse_u32(&parts[2]) {
                Some(u) => {
                    if u == uid {
                        return Some(string_of(&parts[0]));
                    }
                },
                None => {},
            }
        }
        i += 1;
    }
    assert(all.skip(ls.len() as int) =~= Seq::<Seq<char>>::empty());
    None
}

/// The read and written bytes of `/proc/<pid>/io`: the second word of the
/// last `read_bytes:` and `write_bytes:` lines (0 when absent or unreadable).
pub open spec fn io_field(ls: Seq<Seq<char>>, key: Seq<char>) -> u64
    decreases ls.len(),
{
    if ls.len() == 0 {
        0
    } else if starts_with(ls.last(), key) {
        let tk = tokens(ls.last());
        if tk.len() > 1 {
            or_zero(tk[1])
        } else {
            0
        }
    } else {
        io_field(ls.drop_last(), key)
    }
}

fn io_field_exec(ls: &Vec<Vec<char>>, key: &Vec<char>) -> (r: u64)
    ensures
        r == io_field(views(ls@), key@),
{
    let ghost all = views(ls@);
    let mut i: usize = ls.len();
    assert(all.take(ls.len() as int) =~= all);
    while i > 0
        invariant
            i <= ls.len(),
            all == views(ls@),
            io_field(all, key@) == io_field(all.take(i as int), key@),
        decreases i,
    {
        let ghost t = all.take(i as int);
        assert(t.drop_last() =~= all.take(i - 1));
        assert(t.last() == ls@[i - 1]@);
        if starts_with_exec(&ls[i - 1], key) {
            let tk = split_ws(&ls[i - 1]);
            assert(views(tk@).len() == tk@.len());
            if tk.len() > 1 {
                assert(views(tk@)[1] == tk@[1]@);
                return parse_or_zero(&tk[1]);
            }
            return 0;
        }
        i -= 1;
    }
    assert(all.take(0) =~= Seq::<Seq<char>>::empty());
    0
}

pub fn parse_io_bytes(io: &str) -> (r: (u64, u64))
    ensures
        r == (io_field(lines(io@), "read_bytes:"@), io_field(lines(io@), "write_bytes:"@)),
{
    let ls = split_lines(&chars_of(io));
    (io_field_exec(&ls, &chars_of("read_bytes:")), io_field_exec(&ls, &chars_of("write_bytes:")))
}

// ─── SNMP counters ──────────────────────────────────────────────────────────
/// First position of `w` among `ws`.
pub open spec fn position_of(ws: Seq<Seq<char>>, w: Seq<char>) -> Option<int>
    decreases ws.len(),
{
    if ws.len() == 0 {
        None
    } else if ws[0] == w {
        Some(0)
    } else {
        match position_of(ws.drop_first(), w) {
            Some(k) => Some(k + 1),
            None => None,
        }
    }
}

/// A counter of `/proc/net/snmp`, whose lines come in pairs: a header line
/// of names and a line of values, both starting with `<section>:`. The
/// first pair of the section answers: the value under `field`, if the
/// header names it and the value reads as a number.
pub open spec fn snmp_from(ls: Seq<Seq<char>>, prefix: Seq<char>, field: Seq<char>) -> Option<u64>
    decreases ls.len(),
{
    if ls.len() < 2 {
        None
    } else if starts_with(ls[0], prefix) && starts_with(ls[1], prefix) {
        let names = tokens(ls[0].skip(prefix.len() as int));
        let values = tokens(ls[1].skip(prefix.len() as int));
        match position_of(names, field) {
            Some(k) => if k < values.len() {
                parse_u64_spec(values[k])
            } else {
                None
            },
            None => None,
        }
    } else {
        snmp_from(ls.skip(2), prefix, field)
    }
}

fn position_exec(ws: &Vec<Vec<char>>, w: &Vec<char>) -> (r: Option<usize>)
    ensures
        match r {
            Some(k) => position_of(views(ws@), w@) == Some(k as int) && k < ws.len(),
            None => position_of(views(ws@), w@) is None,
        },
{
    let ghost all = views(ws@);
    let mut i: usize = 0;
    assert(all.skip(0) =~= all);
    while i < ws.len()
        invariant
            i <= ws.len(),
            all == views(ws@),
            all.len() == ws.len(),
            position_of(all, w@) == match position_of(all.skip(i as int), w@) {
                Some(k) => Some(k + i),
                None => None::<int>,
            },
        decreases ws.len() - i,
    {
        assert(all.skip(i as int)[0] == ws@[i as int]@);
        assert(all.skip(i as int).drop_first() =~= all.skip(i + 1));
        if chars_eq(&ws[i], w) {
            return Some(i);
        }
        i += 1;
    }
    None
}

/// Reads `field` of `section` in a `/proc/net/snmp` text.
pub fn snmp_counter(content: &str, section: &str, field: &str) -> (r: Option<u64>)
    ensures
        r == snmp_from(lines(content@), section@ + seq![':'], field@),
{
    let ls = split_lines(&chars_of(content));
    let ghost all = views(ls@);
    let mut prefix = chars_of(section);
    prefix.push(':');
    let f = chars_of(field);
    let mut i: usize = 0;
    assert(all.skip(0) =~= all);
    while ls.len() - i > 1
        invariant
            i <= ls.len(),
            all == views(ls@),
            all == lines(content@),
            prefix@ == section@ + seq![':'],
            f@ == field@,
            snmp_from(all, prefix@, f@) == snmp_from(all.skip(i as int), prefix@, f@),
        decreases ls.len() - i,
    {
        let ghost rest = all.skip(i as int);
        assert(rest[0] == ls@[i as int]@);
        assert(rest[1] == ls@[i + 1]@);
        if starts_with_exec(&ls[i], &prefix) && starts_with_exec(&ls[i + 1], &prefix) {
            let hb = slice_of(&ls[i], prefix.len(), ls[i].len());
            let vb = slice_of(&ls[i + 1], prefix.len(), ls[i + 1].len());
            assert(hb@ =~= rest[0].skip(prefix@.len() as int));
            assert(vb@ =~= rest[1].skip(prefix@.len() as int));
            let names = split_ws(&hb);
            let values = split_ws(&vb);
            assert(views(values@).len() == values@.len());
            return match position_exec(&names, &f) {
                Some(k) => if k < values.len() {
                    assert(views(values@)[k as int] == values@[k as int]@);
                    parse_u64(&values[k])
                } else {
                    None
                },
                None => None,
            };
        }
        assert(rest.skip(2) =~= all.skip(i + 2));
        i += 2;
    }
    None
}

// ─── Process files ──────────────────────────────────────────────────────────
/// What process listing reads of `/proc/<pid>/stat`.
#[derive(Debug, Clone)]
pub struct PidStat {
    pub name: String,
    pub state_char: char,
    pub utime: u64,
    pub stime: u64,
    pub vsize: u64,
    pub rss: u64,
    pub threads: u32,
}

pub open spec fn pid_stat_view(p: PidStat) -> (Seq<char>, char, u64, u64, u64, u64, u32) {
    (p.name@, p.state_char, p.utime, p.stime, p.vsize, p.rss, p.threads)
}

/// Whether the name of a stat line can be cut out as the kernel writes it:
/// the first `(` comes before the last `)`, which one ASCII character
/// follows.
pub open spec fn pid_stat_cuttable(s: Seq<char>) -> bool {
    match (index_of(s, '('), rindex_of(s, ')')) {
        (Some(a), Some(b)) => a < b && b + 1 < s.len() && (s[b + 1] as u32) < 128,
        _ => true,
    }
}

/// Field `i` after the name as a number, 0 when absent or unreadable.
pub open spec fn field_u64(rest: Seq<Seq<char>>, i: int) -> u64 {
    if 0 <= i < rest.len() {
        or_zero(rest[i])
    } else {
        0
    }
}

pub open spec fn field_u32(rest: Seq<Seq<char>>, i: int) -> u32 {
    if 0 <= i < rest.len() {
        match parse_u32_spec(rest[i]) {
            Some(v) => v,
            None => 0,
        }
    } else {
        0
    }
}

/// A stat line: the name between the first `(` and the last `)`; after the
/// character that follows it, the words give the state (`?` when there is
/// none), user and system time, virtual size, resident pages and threads.
pub open spec fn pid_stat_spec(s: Seq<char>) -> Option<(Seq<char>, char, u64, u64, u64, u64, u32)> {
    match (index_of(s, '('), rindex_of(s, ')')) {
        (Some(a), Some(b)) => {
            let rest = tokens(s.skip(b + 2));
            let state = if rest.len() > 0 && rest[0].len() > 0 {
                rest[0][0]
            } else {
                '?'
            };
            Some(
                (
                    s.subrange(a + 1, b),
                    state,
                    field_u64(rest, 11),
                    field_u64(rest, 12),
                    field_u64(rest, 20),
                    field_u64(rest, 21),
                    field_u32(rest, 17),
                ),
            )
        },
        _ => None,
    }
}

fn field_u64_exec(rest: &Vec<Vec<char>>, i: usize) -> (r: u64)
    ensures
        r == field_u64(views(rest@), i as int),
{
    assert(views(rest@).len() == rest@.len());
    if i < rest.len() {
        assert(views(rest@)[i as int] == rest@[i as int]@);
        parse_or_zero(&rest[i])
    } else {
        0
    }
}

/// Reads a `/proc/<pid>/stat` line; no name in parentheses is no reading.
pub fn parse_pid_stat(stat: &str) -> (r: Option<PidStat>)
    requires
        pid_stat_cuttable(stat@),
    ensures
        match r {
            Some(p) => pid_stat_spec(stat@) == Some(pid_stat_view(p)),
            None => pid_stat_spec(stat@) is None,
        },
{
    let v = chars_of(stat);
    assert(v@.skip(0) =~= v@);
    let a = match index_of_from(&v, 0, '(') {
        Some(a) => a,
        None => return None,
    };
    let b = match rindex_of_exec(&v, ')') {
        Some(b) => b,
        None => return None,
    };
    let name = string_of(&slice_of(&v, a + 1, b));
    let tail = slice_of(&v, b + 2, v.len());
    assert(tail@ =~= v@.skip(b + 2));
    let rest = split_ws(&tail);
    let ghost rv = views(rest@);
    assert(rv.len() == rest@.len());
    let state_char = if rest.len() > 0 && rest[0].len() > 0 {
        assert(rv[0] == rest@[0]@);
        rest[0][0]
    } else {
        '?'
    };
    let threads: u32 = if 17 < rest.len() {
        assert(rv[17] == rest@[17]@);
        match parse_u32(&rest[17]) {
            Some(t) => t,
            None => 0,
        }
    } else {
        0
    };
    Some(
        PidStat {
            name,
            state_char,
            utime: field_u64_exec(&rest, 11),
            stime: field_u64_exec(&rest, 12),
            vsize: field_u64_exec(&rest, 20),
            rss: field_u64_exec(&rest, 21),
            threads,
        },
    )
}

/// A command line as shown: NUL separators read as spaces, then trimmed.
pub open spec fn cmdline_spec(raw: Seq<char>) -> Seq<char> {
    trim(raw.map_values(|c: char| if c == '\0' { ' ' } else { c }))
}

pub fn cmdline_text(raw: &str) -> (r: String)
    ensures
        r@ == cmdline_spec(raw@),
{
    let v = chars_of(raw);
    let mut spaced: Vec<char> = Vec::new();
    let mut i: usize = 0;
    while i < v.len()
        invariant
            i <= v.len(),
            spaced@ =~= v@.take(i as int).map_values(|c: char| if c == '\0' { ' ' } else { c }),
        decreases v.len() - i,
    {
        spaced.push(if v[i] == '\0' { ' ' } else { v[i] });
        i += 1;
    }
    assert(v@.take(v.len() as int) =~= v@);
    string_of(&trim_chars(&spaced))
}

/// The owner of a process as shown: its user name in `/etc/passwd` when the
/// file was read and names `uid`, else the number.
pub open spec fn process_user_spec(passwd: Option<Seq<char>>, uid: u32) -> Seq<char> {
    match passwd {
        Some(p) => match passwd_user_of(lines(p), uid) {
            Some(n) => n,
            None => decimal(uid as nat),
        },
        None => decimal(uid as nat),
    }
}

pub fn process_user(passwd: Option<&str>, uid: u32) -> (r: String)
    ensures
        r@ == process_user_spec(
            match passwd {
                Some(p) => Some(p@),
                None => None,
            },
            uid,
        ),
{
    match passwd {
        Some(p) => match passwd_user(p, uid) {
            Some(n) => n,
            None => crate::text::u64_text(uid as u64),
        },
        None => crate::text::u64_text(uid as u64),
    }
}

} // verus!
