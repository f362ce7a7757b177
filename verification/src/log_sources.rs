//! Log sources: wildcard path patterns, the level that a log line or a
//! system priority maps to, and the log entries read from system journals
//! and tailed files. Running the journal commands and reading the files is
//! the program's part.
use vstd::prelude::*;
use vstd::string::StringSliceAdditionalSpecFns;
use crate::collectors::{AlertLevel, LogEntry};
use crate::json::{
    json_doc, json_record_view, json_string, json_string_spec, json_values, json_values_spec, parse_json_doc,
    records_view, FieldView,
};
use crate::text::{
    lemma_text_lt_order, lemma_text_lt_trans, text_lt, text_lt_exec, chars_of, contains, contains_any, contains_any_exec, lines, lower_chars, lower_seq, parse_i64,
    parse_i64_spec, parse_u64, parse_uint, slice_of, split_lines, split_ws, string_of, tokens,
    decimal, push_str, trim, trim_chars, trunc_div, u64_text, views,
};

verus! {

pub open spec fn star_byte() -> u8 {
    42u8
}

pub open spec fn any_byte() -> u8 {
    63u8
}

/// Glob matching: `*` stands for any sequence of bytes (`/` included), `?`
/// for exactly one byte, every other byte for itself.
pub open spec fn glob(p: Seq<u8>, t: Seq<u8>) -> bool
    decreases p.len() + t.len(),
{
    if p.len() == 0 {
        t.len() == 0
    } else if p[0] == star_byte() {
        glob(p.drop_first(), t) || (t.len() > 0 && glob(p, t.drop_first()))
    } else {
        t.len() > 0 && (p[0] == t[0] || p[0] == any_byte()) && glob(p.drop_first(), t.drop_first())
    }
}

pub open spec fn all_stars(p: Seq<u8>) -> bool {
    forall|i: int| 0 <= i < p.len() ==> #[trigger] p[i] == star_byte()
}

pub open spec fn star_free(s: Seq<u8>) -> bool {
    forall|i: int| 0 <= i < s.len() ==> #[trigger] s[i] != star_byte()
}

/// The scan of the single-backtrack matcher, from pattern position `p`,
/// text position `t`, the last `*` taken as a wildcard (`star`) and the
/// text position where its current attempt began (`mi`). A pattern byte
/// equal to the text byte (or `?`) is consumed before `*` is considered, so
/// a `*` in the text is first matched literally.
pub open spec fn scan(pat: Seq<u8>, txt: Seq<u8>, p: int, t: int, star: Option<int>, mi: int) -> bool
    decreases txt.len() - mi, pat.len() - p,
    when 0 <= mi <= t <= txt.len() && 0 <= p <= pat.len() && (star is Some ==> 0 <= star->0 < p)
{
    if t >= txt.len() {
        all_stars(pat.skip(p))
    } else if p < pat.len() && (pat[p] == txt[t] || pat[p] == any_byte()) {
        scan(pat, txt, p + 1, t + 1, star, mi)
    } else if p < pat.len() && pat[p] == star_byte() {
        scan(pat, txt, p + 1, t, Some(p), t)
    } else {
        match star {
            Some(s) => scan(pat, txt, s + 1, mi + 1, star, mi + 1),
            None => false,
        }
    }
}

/// What `wildcard_match` answers for a pattern and a text.
pub open spec fn wildcard_outcome(pat: Seq<u8>, txt: Seq<u8>) -> bool {
    scan(pat, txt, 0, 0, None, 0)
}

// ─── Glob lemmas ────────────────────────────────────────────────────────────
/// Byte-for-byte match of a star-free pattern piece.
pub open spec fn lit(l: Seq<u8>, u: Seq<u8>) -> bool {
    &&& l.len() == u.len()
    &&& forall|i: int| 0 <= i < l.len() ==> (#[trigger] l[i] == u[i] || l[i] == any_byte())
}

proof fn lemma_glob_lit_prefix(l: Seq<u8>, r: Seq<u8>, u: Seq<u8>)
    requires
        star_free(l),
    ensures
        glob(l + r, u) == (u.len() >= l.len() && lit(l, u.take(l.len() as int)) && glob(
            r,
            u.skip(l.len() as int),
        )),
    decreases l.len(),
{
    if l.len() == 0 {
        assert(l + r =~= r);
        assert(u.skip(0) =~= u);
        assert(lit(l, u.take(0)));
    } else {
        let l1 = l.drop_first();
        assert((l + r).drop_first() =~= l1 + r);
        assert((l + r)[0] == l[0]);
        assert(l[0] != star_byte());
        assert(star_free(l1)) by {
            assert forall|i: int| 0 <= i < l1.len() implies l1[i] != star_byte() by {
                assert(l1[i] == l[i + 1]);
            }
        }
        if u.len() == 0 {
        } else {
            let u1 = u.drop_first();
            lemma_glob_lit_prefix(l1, r, u1);
            if u.len() >= l.len() {
                assert(u1.skip(l1.len() as int) =~= u.skip(l.len() as int));
                let a = u.take(l.len() as int);
                let b = u1.take(l1.len() as int);
                assert(b =~= a.drop_first());
                if lit(l, a) {
                    assert(lit(l1, b)) by {
                        assert forall|i: int| 0 <= i < l1.len() implies (l1[i] == b[i] || l1[i]
                            == any_byte()) by {
                            assert(l1[i] == l[i + 1]);
                            assert(b[i] == a[i + 1]);
                        }
                    }
                    assert(l[0] == a[0] || l[0] == any_byte());
                }
                if (l[0] == u[0] || l[0] == any_byte()) && lit(l1, b) {
                    assert(lit(l, a)) by {
                        assert forall|i: int| 0 <= i < l.len() implies (l[i] == a[i] || l[i]
                            == any_byte()) by {
                            if i > 0 {
                                assert(l1[i - 1] == l[i]);
                                assert(b[i - 1] == a[i]);
                            }
                        }
                    }
                }
            }
        }
    }
}

proof fn lemma_glob_empty_text(p: Seq<u8>)
    ensures
        glob(p, Seq::empty()) == all_stars(p),
    decreases p.len(),
{
    if p.len() > 0 {
        lemma_glob_empty_text(p.drop_first());
        if all_stars(p) {
            assert(all_stars(p.drop_first())) by {
                assert forall|i: int| 0 <= i < p.drop_first().len() implies p.drop_first()[i]
                    == star_byte() by {
                    assert(p.drop_first()[i] == p[i + 1]);
                }
            }
        }
        if p[0] == star_byte() && all_stars(p.drop_first()) {
            assert forall|i: int| 0 <= i < p.len() implies p[i] == star_byte() by {
                if i > 0 {
                    assert(p.drop_first()[i - 1] == p[i]);
                }
            }
        }
    }
}

/// A leading `*` that matches `u` leaves the rest of the pattern matching
/// some suffix of `u`.
proof fn lemma_star_witness(p: Seq<u8>, u: Seq<u8>) -> (k: int)
    requires
        p.len() > 0,
        p[0] == star_byte(),
        glob(p, u),
    ensures
        0 <= k <= u.len(),
        glob(p.drop_first(), u.skip(k)),
    decreases u.len(),
{
    if glob(p.drop_first(), u) {
        assert(u.skip(0) =~= u);
        0
    } else {
        let k1 = lemma_star_witness(p, u.drop_first());
        assert(u.drop_first().skip(k1) =~= u.skip(k1 + 1));
        k1 + 1
    }
}

/// A leading `*` absorbs any prefix of the text.
proof fn lemma_star_intro(p: Seq<u8>, u: Seq<u8>, k: int)
    requires
        p.len() > 0,
        p[0] == star_byte(),
        0 <= k <= u.len(),
        glob(p.drop_first(), u.skip(k)),
    ensures
        glob(p, u),
    decreases k,
{
    if k == 0 {
        assert(u.skip(0) =~= u);
    } else {
        assert(u.drop_first().skip(k - 1) =~= u.skip(k));
        lemma_star_intro(p, u.drop_first(), k - 1);
    }
}

proof fn lemma_skip_split(p: Seq<u8>, a: int, b: int)
    requires
        0 <= a <= b <= p.len(),
    ensures
        p.skip(a) =~= p.subrange(a, b) + p.skip(b),
{
}

/// What the scan computes on a text without `*` is glob matching: from a
/// state with no `*` taken, the match of the remaining pattern and text;
/// from a state with the `*` at `s` taken and its attempt begun at `mi`,
/// the match of the pattern from `s` against the text from `mi`.
proof fn lemma_scan_glob(pat: Seq<u8>, txt: Seq<u8>, p: int, t: int, star: Option<int>, mi: int)
    requires
        star_free(txt),
        0 <= mi <= t <= txt.len(),
        0 <= p <= pat.len(),
        star matches Some(s) ==> {
            &&& 0 <= s < p
            &&& pat[s] == star_byte()
            &&& t - mi == p - s - 1
            &&& star_free(pat.subrange(s + 1, p))
            &&& lit(pat.subrange(s + 1, p), txt.subrange(mi, t))
        },
    ensures
        scan(pat, txt, p, t, star, mi) == match star {
            Some(s) => glob(pat.skip(s), txt.skip(mi)),
            None => glob(pat.skip(p), txt.skip(t)),
        },
    decreases txt.len() - mi, pat.len() - p, 1int,
{
    let ps = pat.skip(p);
    let ts = txt.skip(t);
    if t >= txt.len() {
        assert(ts =~= Seq::<u8>::empty());
        lemma_glob_empty_text(ps);
        match star {
            Some(s) => {
                let q = pat.skip(s);
                let l = pat.subrange(s + 1, p);
                lemma_skip_split(pat, s + 1, p);
                assert(q.drop_first() =~= pat.skip(s + 1));
                let um = txt.skip(mi);
                lemma_glob_lit_prefix(l, ps, um);
                assert(um.take(l.len() as int) =~= txt.subrange(mi, t));
                assert(um.skip(l.len() as int) =~= ts);
                assert(um.skip(0) =~= um);
                if all_stars(ps) {
                    lemma_star_intro(q, um, 0);
                }
                if glob(q, um) {
                    let k = lemma_star_witness(q, um);
                    let uk = um.skip(k);
                    lemma_glob_lit_prefix(l, ps, uk);
                    assert(k == 0);
                    assert(uk =~= um);
                }
            },
            None => {},
        }
    } else if p < pat.len() && (pat[p] == txt[t] || pat[p] == any_byte()) {
        assert(pat[p] != star_byte());
        lemma_scan_glob_literal(pat, txt, p, t, star, mi);
    } else if p < pat.len() && pat[p] == star_byte() {
        lemma_scan_glob(pat, txt, p + 1, t, Some(p), t);
        assert(pat.subrange(p + 1, p + 1) =~= Seq::<u8>::empty());
        assert(txt.subrange(t, t) =~= Seq::<u8>::empty());
        match star {
            Some(s) => {
                // The attempt that began at `mi` reached a new `*`: the
                // earliest start is as good as any later one.
                let q = pat.skip(s);
                let l = pat.subrange(s + 1, p);
                let um = txt.skip(mi);
                lemma_skip_split(pat, s + 1, p);
                assert(q.drop_first() =~= pat.skip(s + 1));
                assert(um.take(l.len() as int) =~= txt.subrange(mi, t));
                assert(um.skip(l.len() as int) =~= ts);
                lemma_glob_lit_prefix(l, ps, um);
                assert(um.skip(0) =~= um);
                if glob(ps, ts) {
                    lemma_star_intro(q, um, 0);
                }
                if glob(q, um) {
                    let k = lemma_star_witness(q, um);
                    let uk = um.skip(k);
                    lemma_glob_lit_prefix(l, ps, uk);
                    // `ps` starts with `*`, and its text lies at or after `ts`.
                    assert(uk.skip(l.len() as int) =~= ts.skip(k));
                    let j = lemma_star_witness(ps, uk.skip(l.len() as int));
                    assert(ts.skip(k).skip(j) =~= ts.skip(k + j));
                    lemma_star_intro(ps, ts, k + j);
                }
            },
            None => {
                assert(txt.skip(t) =~= ts);
            },
        }
    } else {
        // Mismatch at (p, t): the remaining pattern cannot match from `t`.
        assert(!glob(ps, ts)) by {
            if p < pat.len() {
                assert(ps[0] == pat[p]);
                assert(ts[0] == txt[t]);
            } else {
                assert(ps.len() == 0);
            }
        }
        match star {
            Some(s) => {
                let q = pat.skip(s);
                let l = pat.subrange(s + 1, p);
                let um = txt.skip(mi);
                lemma_skip_split(pat, s + 1, p);
                assert(q.drop_first() =~= pat.skip(s + 1));
                assert(um.take(l.len() as int) =~= txt.subrange(mi, t));
                assert(um.skip(l.len() as int) =~= ts);
                lemma_glob_lit_prefix(l, ps, um);
                assert(!glob(q.drop_first(), um));
                assert(um.drop_first() =~= txt.skip(mi + 1));
                assert(pat.subrange(s + 1, s + 1) =~= Seq::<u8>::empty());
                assert(txt.subrange(mi + 1, mi + 1) =~= Seq::<u8>::empty());
                lemma_scan_glob(pat, txt, s + 1, mi + 1, star, mi + 1);
            },
            None => {},
        }
    }
}

proof fn lemma_scan_glob_literal(
    pat: Seq<u8>,
    txt: Seq<u8>,
    p: int,
    t: int,
    star: Option<int>,
    mi: int,
)
    requires
        star_free(txt),
        0 <= mi <= t < txt.len(),
        0 <= p < pat.len(),
        pat[p] == txt[t] || pat[p] == any_byte(),
        pat[p] != star_byte(),
        star matches Some(s) ==> {
            &&& 0 <= s < p
            &&& pat[s] == star_byte()
            &&& t - mi == p - s - 1
            &&& star_free(pat.subrange(s + 1, p))
            &&& lit(pat.subrange(s + 1, p), txt.subrange(mi, t))
        },
    ensures
        scan(pat, txt, p, t, star, mi) == match star {
            Some(s) => glob(pat.skip(s), txt.skip(mi)),
            None => glob(pat.skip(p), txt.skip(t)),
        },
    decreases txt.len() - mi, pat.len() - p, 0int,
{
    match star {
        Some(s) => {
            let l0 = pat.subrange(s + 1, p);
            let l1 = pat.subrange(s + 1, p + 1);
            assert(l1 =~= l0.push(pat[p]));
            assert(txt.subrange(mi, t + 1) =~= txt.subrange(mi, t).push(txt[t]));
            assert(star_free(l1)) by {
                assert forall|i: int| 0 <= i < l1.len() implies l1[i] != star_byte() by {
                    if i < l0.len() {
                        assert(l1[i] == l0[i]);
                    }
                }
            }
            assert(lit(l1, txt.subrange(mi, t + 1))) by {
                let u1 = txt.subrange(mi, t + 1);
                let u0 = txt.subrange(mi, t);
                assert forall|i: int| 0 <= i < l1.len() implies (l1[i] == u1[i] || l1[i]
                    == any_byte()) by {
                    if i < l0.len() {
                        assert(l1[i] == l0[i]);
                        assert(u1[i] == u0[i]);
                    }
                }
            }
        },
        None => {
            let ps = pat.skip(p);
            let ts = txt.skip(t);
            assert(ps[0] == pat[p]);
            assert(ts[0] == txt[t]);
            assert(ps.drop_first() =~= pat.skip(p + 1));
            assert(ts.drop_first() =~= txt.skip(t + 1));
        },
    }
    lemma_scan_glob(pat, txt, p + 1, t + 1, star, mi);
}

// ─── Matching ───────────────────────────────────────────────────────────────
/// Matches `text` against `pattern`, where `*` stands for any sequence of
/// bytes and `?` for one byte; `*` may also cross `/`. On a text that holds
/// no `*` this is glob matching.
pub fn wildcard_match(pattern: &[u8], text: &[u8]) -> (r: bool)
    ensures
        r == wildcard_outcome(pattern@, text@),
        star_free(text@) ==> r == glob(pattern@, text@),
{
    let mut p: usize = 0;
    let mut t: usize = 0;
    let mut star: Option<usize> = None;
    let mut match_index: usize = 0;
    let ghost pat = pattern@;
    let ghost txt = text@;

    while t < text.len()
        invariant
            pat == pattern@,
            txt == text@,
            0 <= match_index <= t <= text.len(),
            p <= pattern.len(),
            star matches Some(s) ==> s < p,
            scan(pat, txt, 0, 0, None, 0) == scan(
                pat,
                txt,
                p as int,
                t as int,
                match star {
                    Some(s) => Some(s as int),
                    None => None,
                },
                match_index as int,
            ),
        decreases text.len() - match_index, pattern.len() - p,
    {
        if p < pattern.len() && (pattern[p] == text[t] || pattern[p] == 63u8) {
            p += 1;
            t += 1;
        } else if p < pattern.len() && pattern[p] == 42u8 {
            star = Some(p);
            p += 1;
            match_index = t;
        } else if let Some(star_index) = star {
            p = star_index + 1;
            match_index += 1;
            t = match_index;
        } else {
            proof {
                if star_free(txt) {
                    lemma_scan_glob(pat, txt, 0, 0, None, 0);
                    assert(pat.skip(0) =~= pat);
                    assert(txt.skip(0) =~= txt);
                }
            }
            return false;
        }
    }

    let ghost p0 = p;
    while p < pattern.len() && pattern[p] == 42u8
        invariant
            p0 <= p <= pattern.len(),
            forall|i: int| p0 <= i < p ==> pattern@[i] == star_byte(),
        decreases pattern.len() - p,
    {
        p += 1;
    }
    let r = p == pattern.len();
    proof {
        let rest = pat.skip(p0 as int);
        if r {
            assert forall|i: int| 0 <= i < rest.len() implies rest[i] == star_byte() by {
                assert(rest[i] == pat[i + p0]);
            }
        } else {
            assert(rest[p - p0] == pat[p as int]);
        }
        if star_free(txt) {
            lemma_scan_glob(pat, txt, 0, 0, None, 0);
            assert(pat.skip(0) =~= pat);
            assert(txt.skip(0) =~= txt);
        }
    }
    r
}


/// Whether a path pattern holds a wildcard (`*` or `?`).
pub open spec fn has_wildcard_spec(pattern: Seq<char>) -> bool {
    exists|i: int| 0 <= i < pattern.len() && (pattern[i] == '*' || pattern[i] == '?')
}

pub fn has_wildcard(pattern: &str) -> (r: bool)
    ensures
        r == has_wildcard_spec(pattern@),
{
    let v = chars_of(pattern);
    let mut i: usize = 0;
    while i < v.len()
        invariant
            i <= v.len(),
            v@ == pattern@,
            forall|k: int| 0 <= k < i ==> v@[k] != '*' && v@[k] != '?',
        decreases v.len() - i,
    {
        if v[i] == '*' || v[i] == '?' {
            return true;
        }
        i += 1;
    }
    false
}

/// The part of a pattern before its first wildcard: where the search for
/// matching files starts.
pub open spec fn wildcard_prefix_spec(pattern: Seq<char>) -> Seq<char> {
    if has_wildcard_spec(pattern) {
        pattern.take(
            choose|i: int|
                0 <= i < pattern.len() && (pattern[i] == '*' || pattern[i] == '?') && forall|k: int|
                    0 <= k < i ==> pattern[k] != '*' && pattern[k] != '?',
        )
    } else {
        pattern
    }
}

pub fn wildcard_prefix(pattern: &str) -> (r: String)
    ensures
        r@ == wildcard_prefix_spec(pattern@),
{
    let v = chars_of(pattern);
    let mut i: usize = 0;
    while i < v.len() && v[i] != '*' && v[i] != '?'
        invariant
            i <= v.len(),
            forall|k: int| 0 <= k < i ==> v@[k] != '*' && v@[k] != '?',
        decreases v.len() - i,
    {
        i += 1;
    }
    proof {
        if i < v.len() {
            let c = choose|j: int|
                0 <= j < v@.len() && (v@[j] == '*' || v@[j] == '?') && forall|k: int|
                    0 <= k < j ==> v@[k] != '*' && v@[k] != '?';
            assert(c == i) by {
                if c < i {
                    assert(v@[c] != '*' && v@[c] != '?');
                }
                if c > i {
                    assert(v@[i as int] != '*' && v@[i as int] != '?');
                }
            }
        } else {
            assert(v@.take(i as int) =~= v@);
        }
    }
    string_of(&slice_of(&v, 0, i))
}

/// Whether a file path matches a pattern, byte for byte.
pub fn wildcard_match_path(pattern: &str, path: &str) -> (r: bool)
    ensures
        r == wildcard_outcome(pattern.spec_bytes(), path.spec_bytes()),
{
    wildcard_match(pattern.as_bytes(), path.as_bytes())
}

// ─── Levels ─────────────────────────────────────────────────────────────────
/// The level of a free-form log line, from words in it (any ASCII case):
/// fatal, panic, error, failed or critical make it critical; warn, timeout
/// or drop a warning; anything else is info.
pub open spec fn infer_level_spec(message: Seq<char>) -> AlertLevel {
    let l = lower_seq(message);
    if contains_any(l, seq!["fatal", "panic", "error", "failed", "critical"]) {
        AlertLevel::Critical
    } else if contains_any(l, seq!["warn", "timeout", "drop"]) {
        AlertLevel::Warning
    } else {
        AlertLevel::Info
    }
}

pub fn infer_level(message: &str) -> (r: AlertLevel)
    ensures
        r == infer_level_spec(message@),
{
    let l = lower_chars(&chars_of(message));
    if contains_any_exec(&l, vec!["fatal", "panic", "error", "failed", "critical"]) {
        AlertLevel::Critical
    } else if contains_any_exec(&l, vec!["warn", "timeout", "drop"]) {
        AlertLevel::Warning
    } else {
        AlertLevel::Info
    }
}

/// The level of a syslog priority: 0 to 3 are critical, 4 a warning, the
/// rest (and no priority, read as 6) info.
pub open spec fn priority_level_spec(priority: Option<u8>) -> AlertLevel {
    let p = match priority {
        Some(p) => p,
        None => 6u8,
    };
    if p <= 3 {
        AlertLevel::Critical
    } else if p == 4 {
        AlertLevel::Warning
    } else {
        AlertLevel::Info
    }
}

pub fn priority_to_level(priority: Option<u8>) -> (r: AlertLevel)
    ensures
        r == priority_level_spec(priority),
{
    let p = match priority {
        Some(p) => p,
        None => 6,
    };
    if p <= 3 {
        AlertLevel::Critical
    } else if p == 4 {
        AlertLevel::Warning
    } else {
        AlertLevel::Info
    }
}

/// The level of a Windows event from its level name (any ASCII case).
pub open spec fn windows_level_spec(name: Seq<char>) -> AlertLevel {
    let l = lower_seq(name);
    if l == "error"@ || l == "critical"@ {
        AlertLevel::Critical
    } else if l == "warning"@ {
        AlertLevel::Warning
    } else {
        AlertLevel::Info
    }
}

pub fn windows_level(name: &str) -> (r: AlertLevel)
    ensures
        r == windows_level_spec(name@),
{
    let l = lower_chars(&chars_of(name));
    if crate::text::chars_eq_str(&l, "error") || crate::text::chars_eq_str(&l, "critical") {
        AlertLevel::Critical
    } else if crate::text::chars_eq_str(&l, "warning") {
        AlertLevel::Warning
    } else {
        AlertLevel::Info
    }
}

// ─── Entries ────────────────────────────────────────────────────────────────
/// What the contracts read of a log entry.
pub open spec fn entry_view(e: LogEntry) -> (i64, AlertLevel, Seq<char>, Seq<char>, Seq<char>) {
    (e.timestamp, e.level, e.source@, e.origin@, e.message@)
}

pub open spec fn entry_views(s: Seq<LogEntry>) -> Seq<(i64, AlertLevel, Seq<char>, Seq<char>, Seq<char>)> {
    s.map_values(|e: LogEntry| entry_view(e))
}

/// The syslog priority that journald writes, as `u8::from_str` reads it.
pub open spec fn priority_spec(s: Seq<char>) -> Option<u8> {
    match parse_uint(s, 255) {
        Some(v) => Some(v as u8),
        None => None,
    }
}

fn parse_priority(s: &str) -> (r: Option<u8>)
    ensures
        r == priority_spec(s@),
{
    match parse_u64(&chars_of(s)) {
        Some(v) => if v <= 255 {
            Some(v as u8)
        } else {
            None
        },
        None => None,
    }
}

/// A journald record: the time in seconds (from microseconds, else `now`),
/// the level of its priority, its syslog identifier (else `journal`).
pub open spec fn journal_entry_spec(
    message: Seq<char>,
    realtime_us: Option<Seq<char>>,
    priority: Option<Seq<char>>,
    identifier: Option<Seq<char>>,
    now: i64,
) -> (i64, AlertLevel, Seq<char>, Seq<char>, Seq<char>) {
    let ts = match realtime_us {
        Some(t) => match parse_i64_spec(t) {
            Some(us) => trunc_div(us as int, 1000000) as i64,
            None => now,
        },
        None => now,
    };
    let p = match priority {
        Some(p) => priority_spec(p),
        None => None,
    };
    let source = match identifier {
        Some(i) => i,
        None => "journal"@,
    };
    (ts, priority_level_spec(p), source, "journalctl"@, message)
}

/// The log entry of one journald record.
pub fn journal_entry(
    message: String,
    realtime_us: Option<String>,
    priority: Option<String>,
    identifier: Option<String>,
    now: i64,
) -> (r: LogEntry)
    ensures
        entry_view(r) == journal_entry_spec(
            message@,
            match realtime_us {
                Some(s) => Some(s@),
                None => None,
            },
            match priority {
                Some(s) => Some(s@),
                None => None,
            },
            match identifier {
                Some(s) => Some(s@),
                None => None,
            },
            now,
        ),
{
    let timestamp = match &realtime_us {
        Some(t) => match parse_i64(&chars_of(t.as_str())) {
            Some(us) => {
                let wide = us as i128;
                let secs: i128 = if wide >= 0 {
                    wide / 1000000
                } else {
                    0 - ((0 - wide) / 1000000)
                };
                secs as i64
            },
            None => now,
        },
        None => now,
    };
    let p = match &priority {
        Some(s) => parse_priority(s.as_str()),
        None => None,
    };
    let source = match identifier {
        Some(i) => i,
        None => "journal".to_owned(),
    };
    LogEntry {
        timestamp,
        level: priority_to_level(p),
        source,
        origin: "journalctl".to_owned(),
        message,
    }
}

/// A Windows event: its level from the level name, its provider (else
/// `eventlog`), stamped `now`.
pub fn windows_entry(message: String, level_name: Option<String>, provider: Option<String>, now: i64) -> (r:
    LogEntry)
    ensures
        entry_view(r) == (
            now,
            match level_name {
                Some(s) => windows_level_spec(s@),
                None => windows_level_spec(Seq::empty()),
            },
            match provider {
                Some(s) => s@,
                None => "eventlog"@,
            },
            "Get-WinEvent"@,
            message@,
        ),
{
    let level = match &level_name {
        Some(s) => windows_level(s.as_str()),
        None => {
            proof {
                reveal_strlit("error");
                reveal_strlit("critical");
                reveal_strlit("warning");
                assert(lower_seq(Seq::empty()).len() == 0);
            }
            AlertLevel::Info
        },
    };
    let source = match provider {
        Some(p) => p,
        None => "eventlog".to_owned(),
    };
    LogEntry { timestamp: now, level, source, origin: "Get-WinEvent".to_owned(), message }
}

/// The entry of one line of `log show`: the trimmed line, its level, its
/// fifth word as source (else `log`), stamped `now`; none for a blank line.
pub open spec fn macos_line_spec(l: Seq<char>, now: i64) -> Option<
    (i64, AlertLevel, Seq<char>, Seq<char>, Seq<char>),
> {
    let t = trim(l);
    if t.len() == 0 {
        None
    } else {
        Some(
            (
                now,
                infer_level_spec(t),
                if tokens(t).len() > 4 {
                    tokens(t)[4]
                } else {
                    "log"@
                },
                "log show"@,
                t,
            ),
        )
    }
}

/// The entries of lines `ls`, in order, blank lines left out.
pub open spec fn macos_lines_spec(ls: Seq<Seq<char>>, now: i64) -> Seq<
    (i64, AlertLevel, Seq<char>, Seq<char>, Seq<char>),
>
    decreases ls.len(),
{
    if ls.len() == 0 {
        Seq::empty()
    } else {
        macos_lines_spec(ls.drop_last(), now) + match macos_line_spec(ls.last(), now) {
            Some(e) => seq![e],
            None => Seq::empty(),
        }
    }
}

/// The last `n` of `ls` (all of them when there are fewer).
pub open spec fn last_n<A>(ls: Seq<A>, n: nat) -> Seq<A> {
    if ls.len() > n {
        ls.skip(ls.len() - n)
    } else {
        ls
    }
}

/// The entries of the output of `log show`: its last `max_entries` lines,
/// in their order, blank ones left out.
pub fn macos_events(output: &str, max_entries: usize, now: i64) -> (r: Vec<LogEntry>)
    ensures
        entry_views(r@) == macos_lines_spec(last_n(lines(output@), max_entries as nat), now),
{
    let all = split_lines(&chars_of(output));
    let start: usize = if all.len() > max_entries {
        all.len() - max_entries
    } else {
        0
    };
    let ghost ls = last_n(lines(output@), max_entries as nat);
    assert(ls =~= views(all@).skip(start as int));
    let mut out: Vec<LogEntry> = Vec::new();
    let mut i: usize = start;
    while i < all.len()
        invariant
            start <= i <= all.len(),
            ls == views(all@).skip(start as int),
            entry_views(out@) == macos_lines_spec(ls.take(i - start), now),
        decreases all.len() - i,
    {
        let ghost k = i - start;
        assert(ls.take(k + 1).drop_last() =~= ls.take(k));
        assert(ls.take(k + 1).last() == all@[i as int]@);
        let t = trim_chars(&all[i]);
        if t.len() > 0 {
            let words = split_ws(&t);
            let source = if words.len() > 4 {
                string_of(&words[4])
            } else {
                "log".to_owned()
            };
            let message = string_of(&t);
            let e = LogEntry {
                timestamp: now,
                level: infer_level(message.as_str()),
                source,
                origin: "log show".to_owned(),
                message,
            };
            let ghost before = out@;
            out.push(e);
            assert(entry_views(out@) =~= entry_views(before).push(entry_view(e)));
        }
        i += 1;
    }
    assert(ls.take(all.len() - start) =~= ls);
    out
}

// ─── Choice of tailed files ─────────────────────────────────────────────────
/// Files as modification time and path.
pub open spec fn stamp_views(s: Seq<(u64, String)>) -> Seq<(u64, Seq<char>)> {
    s.map_values(|p: (u64, String)| (p.0, p.1@))
}

/// `x` placed after every file at least as new as it, in a list kept newest
/// first.
pub open spec fn insert_newest_first(s: Seq<(u64, Seq<char>)>, x: (u64, Seq<char>)) -> Seq<
    (u64, Seq<char>),
>
    decreases s.len(),
{
    if s.len() == 0 {
        seq![x]
    } else if s[0].0 < x.0 {
        seq![x] + s
    } else {
        seq![s[0]] + insert_newest_first(s.drop_first(), x)
    }
}

/// The files modified at `threshold` or later, newest first; files of one
/// time keep the order in which they were listed.
pub open spec fn recent_newest_first(s: Seq<(u64, Seq<char>)>, threshold: u64) -> Seq<
    (u64, Seq<char>),
>
    decreases s.len(),
{
    if s.len() == 0 {
        Seq::empty()
    } else {
        let rest = recent_newest_first(s.drop_last(), threshold);
        if s.last().0 < threshold {
            rest
        } else {
            insert_newest_first(rest, s.last())
        }
    }
}

/// The paths of the files to tail: the `max_files` newest of those modified
/// at `threshold` or later.
pub open spec fn chosen_files(s: Seq<(u64, Seq<char>)>, threshold: u64, max_files: nat) -> Seq<
    Seq<char>,
> {
    let r = recent_newest_first(s, threshold);
    let n = if max_files < r.len() {
        max_files as int
    } else {
        r.len() as int
    };
    r.take(n).map_values(|p: (u64, Seq<char>)| p.1)
}

proof fn lemma_insert_newest_first_at(s: Seq<(u64, Seq<char>)>, x: (u64, Seq<char>), k: int)
    requires
        0 <= k <= s.len(),
        forall|j: int| 0 <= j < k ==> (#[trigger] s[j]).0 >= x.0,
        k == s.len() || s[k].0 < x.0,
    ensures
        insert_newest_first(s, x) == s.insert(k, x),
    decreases k,
{
    if k == 0 {
        assert(s.insert(0, x) =~= seq![x] + s);
    } else {
        assert(s[0].0 >= x.0);
        let t = s.drop_first();
        assert forall|j: int| 0 <= j < k - 1 implies (#[trigger] t[j]).0 >= x.0 by {
            assert(t[j] == s[j + 1]);
        }
        lemma_insert_newest_first_at(t, x, k - 1);
        assert(s.insert(k, x) =~= seq![s[0]] + t.insert(k - 1, x));
    }
}

/// The files to tail, out of `files` listed as modification time (in
/// nanoseconds since the epoch) and path.
pub fn select_recent_files(files: &Vec<(u64, String)>, threshold: u64, max_files: usize) -> (r:
    Vec<String>)
    ensures
        r@.map_values(|s: String| s@) == chosen_files(
            stamp_views(files@),
            threshold,
            max_files as nat,
        ),
{
    let ghost all = stamp_views(files@);
    let mut kept: Vec<(u64, String)> = Vec::new();
    let mut i: usize = 0;
    while i < files.len()
        invariant
            i <= files.len(),
            all == stamp_views(files@),
            stamp_views(kept@) == recent_newest_first(all.take(i as int), threshold),
        decreases files.len() - i,
    {
        assert(all.take(i + 1).drop_last() =~= all.take(i as int));
        assert(all.take(i + 1).last() == all[i as int]);
        let m = files[i].0;
        if m >= threshold {
            let ghost sv = stamp_views(kept@);
            let mut k: usize = 0;
            while k < kept.len() && kept[k].0 >= m
                invariant
                    k <= kept.len(),
                    sv == stamp_views(kept@),
                    forall|j: int| 0 <= j < k ==> (#[trigger] sv[j]).0 >= m,
                decreases kept.len() - k,
            {
                k += 1;
            }
            proof {
                lemma_insert_newest_first_at(sv, all[i as int], k as int);
            }
            kept.insert(k, (m, files[i].1.clone()));
            assert(stamp_views(kept@) =~= sv.insert(k as int, all[i as int]));
        }
        i += 1;
    }
    assert(all.take(files.len() as int) =~= all);
    let ghost r = recent_newest_first(all, threshold);
    assert(r.len() == kept@.len());
    let n: usize = if max_files < kept.len() {
        max_files
    } else {
        kept.len()
    };
    let mut out: Vec<String> = Vec::new();
    let mut j: usize = 0;
    while j < n
        invariant
            j <= n <= kept.len(),
            stamp_views(kept@) == r,
            r.len() == kept.len(),
            out@.len() == j,
            out@.map_values(|s: String| s@) == r.take(j as int).map_values(
                |p: (u64, Seq<char>)| p.1,
            ),
        decreases n - j,
    {
        let ghost before = out@;
        let path = kept[j].1.clone();
        assert(r[j as int] == (kept@[j as int].0, kept@[j as int].1@));
        out.push(path);
        assert(r.take(j + 1) =~= r.take(j as int).push(r[j as int]));
        assert(out@ =~= before.push(path));
        let ghost ov = out@.map_values(|s: String| s@);
        let ghost bv = before.map_values(|s: String| s@);
        let ghost rv = r.take(j + 1).map_values(|p: (u64, Seq<char>)| p.1);
        let ghost pv = r.take(j as int).map_values(|p: (u64, Seq<char>)| p.1);
        assert forall|k: int| 0 <= k < j + 1 implies #[trigger] ov[k] == rv[k] by {
            if k < j {
                assert(bv[k] == pv[k]);
            }
        }
        assert(out@.map_values(|s: String| s@) =~= r.take(j + 1).map_values(
            |p: (u64, Seq<char>)| p.1,
        ));
        j += 1;
    }
    out
}

// ─── System events ──────────────────────────────────────────────────────────
/// The operating systems whose event logs are read.
#[derive(Debug, Clone, Copy, PartialEq, Eq, Structural)]
pub enum Os {
    Linux,
    MacOs,
    Windows,
    Other,
}

pub open spec fn opt_view(o: Option<String>) -> Option<Seq<char>> {
    match o {
        Some(s) => Some(s@),
        None => None,
    }
}

/// The fields of one journald record that an entry reads, each as text.
pub struct JournalFields {
    pub message: Option<String>,
    pub realtime_us: Option<String>,
    pub priority: Option<String>,
    pub identifier: Option<String>,
}

pub open spec fn journal_fields_view(f: JournalFields) -> (
    Option<Seq<char>>,
    Option<Seq<char>>,
    Option<Seq<char>>,
    Option<Seq<char>>,
) {
    (opt_view(f.message), opt_view(f.realtime_us), opt_view(f.priority), opt_view(f.identifier))
}

/// The fields that an entry reads of a journald record.
pub open spec fn journal_keys() -> Seq<Seq<char>> {
    seq!["MESSAGE"@, "__REALTIME_TIMESTAMP"@, "PRIORITY"@, "SYSLOG_IDENTIFIER"@]
}

/// What one line of `journalctl -o json` gives: nothing when it is no JSON
/// value; else its `MESSAGE`, `__REALTIME_TIMESTAMP`, `PRIORITY` and
/// `SYSLOG_IDENTIFIER` fields, each read as text.
pub open spec fn journal_json(line: Seq<char>) -> Option<
    (Option<Seq<char>>, Option<Seq<char>>, Option<Seq<char>>, Option<Seq<char>>),
> {
    match json_doc(line, journal_keys()) {
        None => None,
        Some(d) => Some(
            (
                json_string_spec(d.own[0]),
                json_string_spec(d.own[1]),
                json_string_spec(d.own[2]),
                json_string_spec(d.own[3]),
            ),
        ),
    }
}

fn journal_fields(line: &str) -> (r: Option<JournalFields>)
    ensures
        match r {
            Some(f) => journal_json(line@) == Some(journal_fields_view(f)),
            None => journal_json(line@) is None,
        },
{
    let keys: Vec<&str> = vec!["MESSAGE", "__REALTIME_TIMESTAMP", "PRIORITY", "SYSLOG_IDENTIFIER"];
    assert(keys@.map_values(|k: &str| k@) =~= journal_keys());
    match parse_json_doc(line, &keys) {
        None => None,
        Some(d) => {
            let r = &d.2;
            Some(
                JournalFields {
                    message: json_string(&r[0]),
                    realtime_us: json_string(&r[1]),
                    priority: json_string(&r[2]),
                    identifier: json_string(&r[3]),
                },
            )
        },
    }
}

/// The entries of the journal's JSON lines: one per line that reads as JSON
/// and has a message, in order.
pub open spec fn journal_lines_spec(ls: Seq<Seq<char>>, now: i64) -> Seq<
    (i64, AlertLevel, Seq<char>, Seq<char>, Seq<char>),
>
    decreases ls.len(),
{
    if ls.len() == 0 {
        Seq::empty()
    } else {
        journal_lines_spec(ls.drop_last(), now) + match journal_json(ls.last()) {
            Some(f) => match f.0 {
                Some(m) => seq![journal_entry_spec(m, f.1, f.2, f.3, now)],
                None => Seq::empty(),
            },
            None => Seq::empty(),
        }
    }
}

/// The entries of the output of `journalctl -o json`.
pub fn journal_events(output: &str, now: i64) -> (r: Vec<LogEntry>)
    ensures
        entry_views(r@) == journal_lines_spec(lines(output@), now),
{
    let all = split_lines(&chars_of(output));
    let ghost ls = lines(output@);
    let mut out: Vec<LogEntry> = Vec::new();
    let mut i: usize = 0;
    while i < all.len()
        invariant
            i <= all.len(),
            ls == views(all@),
            entry_views(out@) == journal_lines_spec(ls.take(i as int), now),
        decreases all.len() - i,
    {
        assert(ls.take(i + 1).drop_last() =~= ls.take(i as int));
        assert(ls.take(i + 1).last() == all@[i as int]@);
        let line = string_of(&all[i]);
        match journal_fields(line.as_str()) {
            Some(f) => match f.message {
                Some(m) => {
                    let e = journal_entry(m, f.realtime_us, f.priority, f.identifier, now);
                    let ghost before = out@;
                    out.push(e);
                    assert(entry_views(out@) =~= entry_views(before).push(entry_view(e)));
                },
                None => {},
            },
            None => {},
        }
        i += 1;
    }
    assert(ls.take(all.len() as int) =~= ls);
    out
}

/// The fields of one Windows event that an entry reads.
pub struct EventFields {
    pub message: Option<String>,
    pub level_name: Option<String>,
    pub provider: Option<String>,
}

pub open spec fn event_fields_view(f: EventFields) -> (
    Option<Seq<char>>,
    Option<Seq<char>>,
    Option<Seq<char>>,
) {
    (opt_view(f.message), opt_view(f.level_name), opt_view(f.provider))
}

/// The fields that an entry reads of a Windows event.
pub open spec fn event_keys() -> Seq<Seq<char>> {
    seq!["Message"@, "LevelDisplayName"@, "ProviderName"@]
}

pub open spec fn event_of(r: Seq<Option<FieldView>>) -> (Option<Seq<char>>, Option<Seq<char>>, Option<Seq<char>>) {
    (json_string_spec(r[0]), json_string_spec(r[1]), json_string_spec(r[2]))
}

/// What the `ConvertTo-Json` output of `Get-WinEvent` gives: nothing when
/// it is no JSON value; else its events (see `json_values_spec`) with their
/// `Message`, `LevelDisplayName` and `ProviderName` fields read as text.
pub open spec fn windows_json(output: Seq<char>) -> Option<
    Seq<(Option<Seq<char>>, Option<Seq<char>>, Option<Seq<char>>)>,
> {
    match json_doc(output, event_keys()) {
        None => None,
        Some(d) => Some(json_values_spec(d).map_values(|r: Seq<Option<FieldView>>| event_of(r))),
    }
}

fn windows_event_fields(output: &str) -> (r: Option<Vec<EventFields>>)
    ensures
        match r {
            Some(v) => windows_json(output@) == Some(v@.map_values(|e: EventFields| event_fields_view(e))),
            None => windows_json(output@) is None,
        },
{
    let keys: Vec<&str> = vec!["Message", "LevelDisplayName", "ProviderName"];
    assert(keys@.map_values(|k: &str| k@) =~= event_keys());
    let doc = match parse_json_doc(output, &keys) {
        Some(d) => d,
        None => return None,
    };
    let recs = json_values(doc);
    let ghost rv = records_view(recs@);
    assert(forall|i: int| 0 <= i < rv.len() ==> (#[trigger] rv[i]).len() == 3);
    let mut out: Vec<EventFields> = Vec::new();
    let mut i: usize = 0;
    while i < recs.len()
        invariant
            i <= recs.len(),
            rv == records_view(recs@),
            forall|j: int| 0 <= j < rv.len() ==> (#[trigger] rv[j]).len() == 3,
            out@.len() == i,
            out@.map_values(|e: EventFields| event_fields_view(e)) == rv.take(i as int).map_values(
                |r: Seq<Option<FieldView>>| event_of(r),
            ),
        decreases recs.len() - i,
    {
        let r = &recs[i];
        assert(json_record_view(r@) == rv[i as int]);
        assert(r@.len() == 3);
        let e = EventFields { message: json_string(&r[0]), level_name: json_string(&r[1]), provider: json_string(&r[2]) };
        let ghost before = out@;
        assert(event_fields_view(e) == event_of(rv[i as int]));
        out.push(e);
        assert forall|k: int| 0 <= k < i implies #[trigger] event_fields_view(out@[k]) == event_of(rv[k]) by {
            assert(out@[k] == before[k]);
            assert(before.map_values(|e: EventFields| event_fields_view(e))[k] == rv.take(i as int).map_values(
                |r: Seq<Option<FieldView>>| event_of(r),
            )[k]);
        }
        assert(out@.map_values(|e: EventFields| event_fields_view(e)) =~= rv.take(i + 1).map_values(
            |r: Seq<Option<FieldView>>| event_of(r),
        ));
        i += 1;
    }
    assert(rv.take(recs.len() as int) =~= rv);
    Some(out)
}

/// The entry of one Windows event with a message.
pub open spec fn windows_item_spec(
    f: (Option<Seq<char>>, Option<Seq<char>>, Option<Seq<char>>),
    m: Seq<char>,
    now: i64,
) -> (i64, AlertLevel, Seq<char>, Seq<char>, Seq<char>) {
    (
        now,
        match f.1 {
            Some(s) => windows_level_spec(s),
            None => windows_level_spec(Seq::empty()),
        },
        match f.2 {
            Some(s) => s,
            None => "eventlog"@,
        },
        "Get-WinEvent"@,
        m,
    )
}

/// The entries of the Windows events that have a message, in order.
pub open spec fn windows_items_spec(
    items: Seq<(Option<Seq<char>>, Option<Seq<char>>, Option<Seq<char>>)>,
    now: i64,
) -> Seq<(i64, AlertLevel, Seq<char>, Seq<char>, Seq<char>)>
    decreases items.len(),
{
    if items.len() == 0 {
        Seq::empty()
    } else {
        windows_items_spec(items.drop_last(), now) + match items.last().0 {
            Some(m) => seq![windows_item_spec(items.last(), m, now)],
            None => Seq::empty(),
        }
    }
}

pub open spec fn windows_events_spec(output: Seq<char>, now: i64) -> Seq<
    (i64, AlertLevel, Seq<char>, Seq<char>, Seq<char>),
> {
    match windows_json(output) {
        Some(items) => windows_items_spec(items, now),
        None => Seq::empty(),
    }
}

/// The entries of the output of `Get-WinEvent ... | ConvertTo-Json`.
pub fn windows_events(output: &str, now: i64) -> (r: Vec<LogEntry>)
    ensures
        entry_views(r@) == windows_events_spec(output@, now),
{
    let items = match windows_event_fields(output) {
        Some(v) => v,
        None => return Vec::new(),
    };
    let ghost iv = items@.map_values(|e: EventFields| event_fields_view(e));
    let mut items = items;
    let mut out: Vec<LogEntry> = Vec::new();
    let mut rev: Vec<EventFields> = Vec::new();
    // take the events back to front, then build the entries front to back
    let n = items.len();
    while items.len() > 0
        invariant
            items.len() + rev.len() == n,
            iv.len() == n,
            forall|k: int| 0 <= k < items.len() ==> event_fields_view(#[trigger] items@[k]) == iv[k],
            forall|k: int|
                0 <= k < rev.len() ==> event_fields_view(#[trigger] rev@[k]) == iv[n - 1 - k],
        decreases items.len(),
    {
        let e = items.pop().unwrap();
        rev.push(e);
    }
    let mut i: usize = 0;
    while rev.len() > 0
        invariant
            rev.len() + i == n,
            iv.len() == n,
            forall|k: int|
                0 <= k < rev.len() ==> event_fields_view(#[trigger] rev@[k]) == iv[n - 1 - k],
            entry_views(out@) == windows_items_spec(iv.take(i as int), now),
        decreases rev.len(),
    {
        let f = rev.pop().unwrap();
        assert(event_fields_view(f) == iv[i as int]);
        assert(iv.take(i + 1).drop_last() =~= iv.take(i as int));
        assert(iv.take(i + 1).last() == iv[i as int]);
        match f.message {
            Some(m) => {
                let e = windows_entry(m, f.level_name, f.provider, now);
                let ghost before = out@;
                out.push(e);
                assert(entry_views(out@) =~= entry_views(before).push(entry_view(e)));
            },
            None => {},
        }
        i += 1;
    }
    assert(iv.take(n as int) =~= iv);
    out
}

/// The entries that the system's event log gave: `journalctl` JSON lines on
/// Linux, `log show` lines on macOS (the last `max_entries`), the events of
/// `Get-WinEvent` on Windows; nothing without output or on other systems.
pub open spec fn system_events_spec(
    os: Os,
    output: Option<Seq<char>>,
    max_entries: usize,
    now: i64,
) -> Seq<(i64, AlertLevel, Seq<char>, Seq<char>, Seq<char>)> {
    match output {
        None => Seq::empty(),
        Some(o) => match os {
            Os::Linux => journal_lines_spec(lines(o), now),
            Os::MacOs => macos_lines_spec(last_n(lines(o), max_entries as nat), now),
            Os::Windows => windows_events_spec(o, now),
            Os::Other => Seq::empty(),
        },
    }
}

/// The system events from the output of the system's log tool.
pub fn system_events(os: Os, output: Option<String>, max_entries: usize, now: i64) -> (r: Vec<
    LogEntry,
>)
    ensures
        entry_views(r@) == system_events_spec(os, opt_view(output), max_entries, now),
{
    match output {
        None => {
            let r: Vec<LogEntry> = Vec::new();
            assert(entry_views(r@) =~= Seq::<(i64, AlertLevel, Seq<char>, Seq<char>, Seq<char>)>::empty());
            r
        },
        Some(o) => match os {
            Os::Linux => journal_events(o.as_str(), now),
            Os::MacOs => macos_events(o.as_str(), max_entries, now),
            Os::Windows => windows_events(o.as_str(), now),
            Os::Other => {
                let r: Vec<LogEntry> = Vec::new();
                assert(entry_views(r@) =~= Seq::<(i64, AlertLevel, Seq<char>, Seq<char>, Seq<char>)>::empty());
                r
            },
        },
    }
}

/// The arguments of `journalctl` for the events of the last `window_secs`
/// seconds, at most `max_entries` of them, as JSON.
pub open spec fn journal_args_spec(window_secs: u64, max_entries: usize) -> Seq<Seq<char>> {
    seq![
        "--since"@,
        "-"@ + decimal(window_secs as nat) + " seconds"@,
        "-p"@,
        "info..emerg"@,
        "-o"@,
        "json"@,
        "--no-pager"@,
        "-n"@,
        decimal(max_entries as nat),
    ]
}

pub fn journal_args(window_secs: u64, max_entries: usize) -> (r: Vec<String>)
    ensures
        r@.map_values(|s: String| s@) == journal_args_spec(window_secs, max_entries),
{
    let mut since = String::new();
    push_str(&mut since, "-");
    push_str(&mut since, u64_text(window_secs).as_str());
    push_str(&mut since, " seconds");
    let r = vec![
        "--since".to_owned(),
        since,
        "-p".to_owned(),
        "info..emerg".to_owned(),
        "-o".to_owned(),
        "json".to_owned(),
        "--no-pager".to_owned(),
        "-n".to_owned(),
        u64_text(max_entries as u64),
    ];
    assert(r@.map_values(|s: String| s@) =~= journal_args_spec(window_secs, max_entries));
    r
}

/// The lines that tailing keeps: the last `max_lines` lines of a file.
pub fn tail_lines(content: &str, max_lines: usize) -> (r: Vec<String>)
    ensures
        r@.len() == last_n(lines(content@), max_lines as nat).len(),
        forall|i: int| 0 <= i < r@.len() ==> #[trigger] r@[i]@ == last_n(lines(content@), max_lines as nat)[i],
{
    let all = split_lines(&chars_of(content));
    let start: usize = if all.len() > max_lines {
        all.len() - max_lines
    } else {
        0
    };
    let ghost ls = last_n(lines(content@), max_lines as nat);
    assert(ls =~= views(all@).skip(start as int));
    let mut out: Vec<String> = Vec::new();
    let mut i: usize = start;
    while i < all.len()
        invariant
            start <= i <= all.len(),
            ls == views(all@).skip(start as int),
            out@.len() == i - start,
            forall|k: int| 0 <= k < out@.len() ==> #[trigger] out@[k]@ == ls[k],
        decreases all.len() - i,
    {
        out.push(string_of(&all[i]));
        i += 1;
    }
    out
}

/// The entries of one tailed file: each non-blank line, trimmed, with its
/// level, stamped with the file's time and named after the file.
pub open spec fn file_lines_spec(ls: Seq<Seq<char>>, origin: Seq<char>, timestamp: i64) -> Seq<
    (i64, AlertLevel, Seq<char>, Seq<char>, Seq<char>),
>
    decreases ls.len(),
{
    if ls.len() == 0 {
        Seq::empty()
    } else {
        let t = trim(ls.last());
        file_lines_spec(ls.drop_last(), origin, timestamp) + if t.len() == 0 {
            Seq::empty()
        } else {
            seq![(timestamp, infer_level_spec(t), "file"@, origin, t)]
        }
    }
}

pub fn file_entries(origin: &str, timestamp: i64, file_lines: &Vec<String>) -> (r: Vec<LogEntry>)
    ensures
        entry_views(r@) == file_lines_spec(
            file_lines@.map_values(|s: String| s@),
            origin@,
            timestamp,
        ),
{
    let ghost ls = file_lines@.map_values(|s: String| s@);
    let mut out: Vec<LogEntry> = Vec::new();
    let mut i: usize = 0;
    while i < file_lines.len()
        invariant
            i <= file_lines.len(),
            ls == file_lines@.map_values(|s: String| s@),
            entry_views(out@) == file_lines_spec(ls.take(i as int), origin@, timestamp),
        decreases file_lines.len() - i,
    {
        assert(ls.take(i + 1).drop_last() =~= ls.take(i as int));
        assert(ls.take(i + 1).last() == file_lines@[i as int]@);
        let t = trim_chars(&chars_of(file_lines[i].as_str()));
        if t.len() > 0 {
            let message = string_of(&t);
            let e = LogEntry {
                timestamp,
                level: infer_level(message.as_str()),
                source: "file".to_owned(),
                origin: origin.to_owned(),
                message,
            };
            let ghost before = out@;
            out.push(e);
            assert(entry_views(out@) =~= entry_views(before).push(entry_view(e)));
        }
        i += 1;
    }
    assert(ls.take(file_lines.len() as int) =~= ls);
    out
}


// ─── Order of entries ───────────────────────────────────────────────────────
/// Whether entry `a` may be listed before entry `b`: newer first, then by
/// origin name.
pub open spec fn entry_le(a: LogEntry, b: LogEntry) -> bool {
    a.timestamp > b.timestamp || (a.timestamp == b.timestamp && !text_lt(b.origin@, a.origin@))
}

/// Newest first, equal times by origin name.
pub open spec fn entries_ordered(s: Seq<LogEntry>) -> bool {
    forall|i: int, j: int| 0 <= i < j < s.len() ==> entry_le(#[trigger] s[i], #[trigger] s[j])
}

proof fn lemma_entry_le(a: LogEntry, b: LogEntry, c: LogEntry)
    ensures
        entry_le(a, b) || entry_le(b, a),
        entry_le(a, b) && entry_le(b, c) ==> entry_le(a, c),
{
    lemma_text_lt_order(a.origin@, b.origin@);
    lemma_text_lt_order(b.origin@, c.origin@);
    lemma_text_lt_order(a.origin@, c.origin@);
    if text_lt(c.origin@, a.origin@) && text_lt(b.origin@, c.origin@) {
        lemma_text_lt_trans(b.origin@, c.origin@, a.origin@);
    }
    if text_lt(c.origin@, a.origin@) && text_lt(c.origin@, b.origin@) && !text_lt(b.origin@, a.origin@) && b.origin@ != a.origin@ {
        lemma_text_lt_trans(c.origin@, a.origin@, b.origin@);
    }
}

/// The entries of `s` with time `t` and origin `o`, in their order.
pub open spec fn keyed(s: Seq<LogEntry>, t: i64, o: Seq<char>) -> Seq<LogEntry>
    decreases s.len(),
{
    if s.len() == 0 {
        Seq::empty()
    } else {
        keyed(s.drop_last(), t, o) + if s.last().timestamp == t && s.last().origin@ == o {
            seq![s.last()]
        } else {
            Seq::empty()
        }
    }
}

proof fn lemma_keyed_add(a: Seq<LogEntry>, b: Seq<LogEntry>, t: i64, o: Seq<char>)
    ensures
        keyed(a + b, t, o) == keyed(a, t, o) + keyed(b, t, o),
    decreases b.len(),
{
    if b.len() == 0 {
        assert(a + b =~= a);
        assert(keyed(a, t, o) + keyed(b, t, o) =~= keyed(a, t, o));
    } else {
        lemma_keyed_add(a, b.drop_last(), t, o);
        assert((a + b).drop_last() =~= a + b.drop_last());
        assert((a + b).last() == b.last());
    }
}

proof fn lemma_keyed_none(a: Seq<LogEntry>, t: i64, o: Seq<char>)
    requires
        forall|k: int| 0 <= k < a.len() ==> !((#[trigger] a[k]).timestamp == t && a[k].origin@ == o),
    ensures
        keyed(a, t, o) == Seq::<LogEntry>::empty(),
    decreases a.len(),
{
    if a.len() > 0 {
        lemma_keyed_none(a.drop_last(), t, o);
        assert(a.last() == a[a.len() - 1]);
    }
}

/// The entries newest first, equal times by origin name; entries that tie
/// keep their order.
pub fn order_log_entries(entries: Vec<LogEntry>) -> (r: Vec<LogEntry>)
    ensures
        entries_ordered(r@),
        r@.to_multiset() == entries@.to_multiset(),
        forall|t: i64, o: Seq<char>| #[trigger] keyed(r@, t, o) == keyed(entries@, t, o),
{
    broadcast use vstd::seq_lib::group_to_multiset_ensures;
    let mut rest = entries;
    let mut out: Vec<LogEntry> = Vec::new();
    while rest.len() > 0
        invariant
            entries_ordered(out@),
            out@.to_multiset().add(rest@.to_multiset()) == entries@.to_multiset(),
            forall|t: i64, o: Seq<char>|
                keyed(rest@, t, o) + keyed(out@, t, o) == #[trigger] keyed(entries@, t, o),
        decreases rest.len(),
    {
        let ghost before_rest = rest@;
        let e = rest.pop().unwrap();
        assert(before_rest =~= rest@.push(e));
        let mut p: usize = 0;
        while p < out.len() && !(out[p].timestamp < e.timestamp || (out[p].timestamp == e.timestamp
            && !text_lt_exec(out[p].origin.as_str(), e.origin.as_str())))
            invariant
                p <= out.len(),
                forall|k: int| 0 <= k < p ==> !entry_le(e, #[trigger] out@[k]),
            decreases out.len() - p,
        {
            p += 1;
        }
        let ghost before = out@;
        out.insert(p, e);
        proof {
            assert(out@ =~= before.insert(p as int, e));
            assert forall|a: int, b: int| 0 <= a < b < out@.len() implies entry_le(
                #[trigger] out@[a],
                #[trigger] out@[b],
            ) by {
                if a < p && b == p {
                    lemma_entry_le(before[a], e, e);
                } else if a < p && b > p {
                    assert(out@[b] == before[b - 1]);
                    lemma_entry_le(before[a], e, e);
                    lemma_entry_le(before[a], before[p as int], before[b - 1]);
                    if p < before.len() {
                        lemma_entry_le(e, before[p as int], before[b - 1]);
                        lemma_entry_le(before[a], e, before[p as int]);
                    }
                } else if a == p {
                    assert(out@[b] == before[b - 1]);
                    if b - 1 > p {
                        lemma_entry_le(e, before[p as int], before[b - 1]);
                    }
                } else if a > p {
                    assert(out@[a] == before[a - 1]);
                    assert(out@[b] == before[b - 1]);
                }
            }
            rest@.to_multiset_ensures();
            assert(rest@.push(e).to_multiset() =~= rest@.to_multiset().insert(e));
            assert(before_rest.to_multiset() =~= rest@.to_multiset().insert(e));
            vstd::seq_lib::to_multiset_insert(before, p as int, e);
            assert(out@.to_multiset() =~= before.to_multiset().insert(e));
            assert(out@.to_multiset().add(rest@.to_multiset()) =~= before.to_multiset().add(
                before_rest.to_multiset(),
            ));
            assert(before.insert(p as int, e) =~= before.take(p as int) + (seq![e] + before.skip(
                p as int,
            )));
            assert(before =~= before.take(p as int) + before.skip(p as int));
            assert forall|t: i64, o: Seq<char>|
                keyed(rest@, t, o) + keyed(out@, t, o) == #[trigger] keyed(entries@, t, o) by {
                let hd = before.take(p as int);
                let tl = before.skip(p as int);
                lemma_keyed_add(hd, seq![e] + tl, t, o);
                lemma_keyed_add(seq![e], tl, t, o);
                lemma_keyed_add(hd, tl, t, o);
                assert(seq![e].drop_last() =~= Seq::<LogEntry>::empty());
                assert(before_rest.drop_last() =~= rest@);
                assert(before_rest.last() == e);
                let ke = keyed(seq![e], t, o);
                assert(ke == keyed(Seq::<LogEntry>::empty(), t, o) + if e.timestamp == t
                    && e.origin@ == o {
                    seq![e]
                } else {
                    Seq::empty()
                });
                assert(keyed(before_rest, t, o) == keyed(rest@, t, o) + ke);
                assert(out@ == hd + (seq![e] + tl));
                assert(keyed(out@, t, o) == keyed(hd, t, o) + (ke + keyed(tl, t, o)));
                assert(keyed(before, t, o) == keyed(hd, t, o) + keyed(tl, t, o));
                if e.timestamp == t && e.origin@ == o {
                    assert forall|k: int| 0 <= k < hd.len() implies !((#[trigger] hd[k]).timestamp
                        == t && hd[k].origin@ == o) by {
                        assert(!entry_le(e, before[k]));
                        lemma_text_lt_order(o, o);
                    }
                    lemma_keyed_none(hd, t, o);
                } else {
                }
                assert(keyed(rest@, t, o) + keyed(out@, t, o) =~= keyed(before_rest, t, o)
                    + keyed(before, t, o));
            }
        }
    }
    assert(keyed(rest@, 0, Seq::empty()) == Seq::<LogEntry>::empty());
    assert forall|t: i64, o: Seq<char>| #[trigger] keyed(out@, t, o) == keyed(entries@, t, o) by {
        assert(keyed(rest@, t, o) + keyed(out@, t, o) == keyed(entries@, t, o));
        assert(Seq::<LogEntry>::empty() + keyed(out@, t, o) =~= keyed(out@, t, o));
    }
    assert(rest@.to_multiset() =~= vstd::multiset::Multiset::empty());
    assert(out@.to_multiset().add(vstd::multiset::Multiset::empty()) =~= out@.to_multiset());
    out
}

} // verus!
