//! The Linux pressure-stall files (`/proc/pressure/*`, `*.pressure` of a
//! cgroup): lines such as `some avg10=0.12 avg60=0.05 avg300=0.01 total=42`.
//! The averages are fractions and stay text here; the total is a counter.
use vstd::prelude::*;
use crate::text::{
    chars_eq_str, chars_of, index_of, index_of_from, lines, parse_u64, parse_u64_spec, slice_of, split_lines,
    split_ws, str_eq, string_of, tokens, views,
};

verus! {

broadcast use vstd::string::group_string_axioms;

/// One window of a pressure line: the text of each average (the last one
/// given), the total stall time, and the texts of all the averages given,
/// in order.
pub struct PressureWindowText {
    pub avg10: Option<String>,
    pub avg60: Option<String>,
    pub avg300: Option<String>,
    pub total: u64,
    pub averages: Vec<String>,
}

/// The `some` and `full` windows of a pressure file (the last of each), and
/// the texts of the averages of all its lines, in order.
pub struct PressureText {
    pub some: Option<PressureWindowText>,
    pub full: Option<PressureWindowText>,
    pub averages: Vec<String>,
}

pub open spec fn strs(v: Seq<String>) -> Seq<Seq<char>> {
    v.map_values(|s: String| s@)
}

/// Whether `key` names an average.
pub open spec fn is_avg(key: Seq<char>) -> bool {
    key == "avg10"@ || key == "avg60"@ || key == "avg300"@
}

/// The texts of the averages among the fields `toks`, in order.
pub open spec fn avg_texts(toks: Seq<Seq<char>>) -> Seq<Seq<char>>
    decreases toks.len(),
{
    if toks.len() == 0 {
        Seq::empty()
    } else {
        avg_texts(toks.drop_last()) + match index_of(toks.last(), '=') {
            Some(i) => if is_avg(toks.last().take(i)) {
                seq![toks.last().skip(i + 1)]
            } else {
                Seq::empty()
            },
            None => Seq::empty(),
        }
    }
}

/// The texts of the averages of every line of `ls`, in order.
pub open spec fn file_avg_texts(ls: Seq<Seq<char>>) -> Seq<Seq<char>>
    decreases ls.len(),
{
    if ls.len() == 0 {
        Seq::empty()
    } else {
        file_avg_texts(ls.drop_last()) + avg_texts(tokens(ls.last()).drop_first())
    }
}

pub open spec fn opt_text(o: Option<String>) -> Option<Seq<char>> {
    match o {
        Some(s) => Some(s@),
        None => None,
    }
}

/// A window as plain values.
pub open spec fn window_view(w: PressureWindowText) -> (Option<Seq<char>>, Option<Seq<char>>, Option<Seq<char>>, u64) {
    (opt_text(w.avg10), opt_text(w.avg60), opt_text(w.avg300), w.total)
}

pub open spec fn opt_window(o: Option<PressureWindowText>) -> Option<
    (Option<Seq<char>>, Option<Seq<char>>, Option<Seq<char>>, u64),
> {
    match o {
        Some(w) => Some(window_view(w)),
        None => None,
    }
}

/// One `key=value` field applied to a window: an average keeps its text,
/// `total` must be a counter, other keys change nothing; a field without
/// `=` fails the line.
pub open spec fn pressure_step(
    w: Option<(Option<Seq<char>>, Option<Seq<char>>, Option<Seq<char>>, u64)>,
    tok: Seq<char>,
) -> Option<(Option<Seq<char>>, Option<Seq<char>>, Option<Seq<char>>, u64)> {
    match w {
        None => None,
        Some(w) => match index_of(tok, '=') {
            None => None,
            Some(i) => {
                let key = tok.take(i);
                let value = tok.skip(i + 1);
                if key == "avg10"@ {
                    Some((Some(value), w.1, w.2, w.3))
                } else if key == "avg60"@ {
                    Some((w.0, Some(value), w.2, w.3))
                } else if key == "avg300"@ {
                    Some((w.0, w.1, Some(value), w.3))
                } else if key == "total"@ {
                    match parse_u64_spec(value) {
                        Some(n) => Some((w.0, w.1, w.2, n)),
                        None => None,
                    }
                } else {
                    Some(w)
                }
            },
        },
    }
}

/// The window of the fields `toks`, taken in order from an empty window.
pub open spec fn pressure_fields(toks: Seq<Seq<char>>) -> Option<
    (Option<Seq<char>>, Option<Seq<char>>, Option<Seq<char>>, u64),
>
    decreases toks.len(),
{
    if toks.len() == 0 {
        Some((None, None, None, 0u64))
    } else {
        pressure_step(pressure_fields(toks.drop_last()), toks.last())
    }
}

/// A line: its first word is its kind, the other words its fields.
pub open spec fn pressure_line_spec(line: Seq<char>) -> Option<
    (Seq<char>, (Option<Seq<char>>, Option<Seq<char>>, Option<Seq<char>>, u64)),
> {
    let t = tokens(line);
    if t.len() == 0 {
        None
    } else {
        match pressure_fields(t.drop_first()) {
            Some(w) => Some((t[0], w)),
            None => None,
        }
    }
}

fn window_field(w: &mut PressureWindowText, tok: &Vec<char>) -> (ok: bool)
    ensures
        ok == (pressure_step(Some(window_view(*old(w))), tok@) is Some),
        ok ==> Some(window_view(*final(w))) == pressure_step(Some(window_view(*old(w))), tok@),
        ok ==> strs(final(w).averages@) == strs(old(w).averages@) + avg_texts(seq![tok@]),
{
    assert(seq![tok@].drop_last() =~= Seq::<Seq<char>>::empty());
    assert(seq![tok@].last() == tok@);
    assert(avg_texts(Seq::<Seq<char>>::empty()) =~= Seq::<Seq<char>>::empty());
    let i = match index_of_from(tok, 0, '=') {
        Some(i) => i,
        None => {
            assert(tok@.skip(0) =~= tok@);
            return false;
        },
    };
    assert(tok@.skip(0) =~= tok@);
    let key = slice_of(tok, 0, i);
    let value = slice_of(tok, i + 1, tok.len());
    assert(key@ =~= tok@.take(i as int));
    assert(value@ =~= tok@.skip(i + 1));
    let ghost before = w.averages@;
    if chars_eq_str(&key, "avg10") {
        w.avg10 = Some(string_of(&value));
        w.averages.push(string_of(&value));
        assert(strs(w.averages@) =~= strs(before).push(value@));
        assert(avg_texts(seq![tok@]) =~= seq![value@]);
    } else if chars_eq_str(&key, "avg60") {
        w.avg60 = Some(string_of(&value));
        w.averages.push(string_of(&value));
        assert(strs(w.averages@) =~= strs(before).push(value@));
        assert(avg_texts(seq![tok@]) =~= seq![value@]);
    } else if chars_eq_str(&key, "avg300") {
        w.avg300 = Some(string_of(&value));
        w.averages.push(string_of(&value));
        assert(strs(w.averages@) =~= strs(before).push(value@));
        assert(avg_texts(seq![tok@]) =~= seq![value@]);
    } else if chars_eq_str(&key, "total") {
        match parse_u64(&value) {
            Some(n) => w.total = n,
            None => return false,
        }
        assert(strs(w.averages@) =~= strs(before));
        assert(avg_texts(seq![tok@]) =~= Seq::<Seq<char>>::empty());
    } else {
        assert(strs(w.averages@) =~= strs(before));
        assert(avg_texts(seq![tok@]) =~= Seq::<Seq<char>>::empty());
    }
    true
}

/// The kind and window of one pressure line; `None` for a blank line, a
/// field without `=`, or a total that is no counter.
pub fn parse_pressure_line(line: &str) -> (r: Option<(String, PressureWindowText)>)
    ensures
        match r {
            Some(p) => pressure_line_spec(line@) == Some((p.0@, window_view(p.1))) && strs(p.1.averages@)
                == avg_texts(tokens(line@).drop_first()),
            None => pressure_line_spec(line@) is None,
        },
{
    let toks = split_ws(&chars_of(line));
    let ghost t = views(toks@);
    if toks.len() == 0 {
        return None;
    }
    let mut w = PressureWindowText { avg10: None, avg60: None, avg300: None, total: 0, averages: Vec::new() };
    assert(strs(w.averages@) =~= Seq::<Seq<char>>::empty());
    let mut i: usize = 1;
    while i < toks.len()
        invariant
            1 <= i <= toks.len(),
            t == views(toks@),
            t == tokens(line@),
            pressure_fields(t.drop_first().take(i - 1)) == Some(window_view(w)),
            strs(w.averages@) == avg_texts(t.drop_first().take(i - 1)),
        decreases toks.len() - i,
    {
        assert(t.drop_first().take(i as int).drop_last() =~= t.drop_first().take(i - 1));
        assert(t.drop_first().take(i as int).last() == toks@[i as int]@);
        assert(seq![toks@[i as int]@].drop_last() =~= Seq::<Seq<char>>::empty());
        assert(seq![toks@[i as int]@].last() == toks@[i as int]@);
        assert(avg_texts(Seq::<Seq<char>>::empty()) =~= Seq::<Seq<char>>::empty());
        if !window_field(&mut w, &toks[i]) {
            proof {
                lemma_fields_fail(t.drop_first(), i as int);
            }
            return None;
        }
        i += 1;
    }
    assert(t.drop_first().take(t.len() - 1) =~= t.drop_first());
    Some((string_of(&toks[0]), w))
}

proof fn lemma_fields_fail(toks: Seq<Seq<char>>, n: int)
    requires
        0 < n <= toks.len(),
        pressure_fields(toks.take(n)) is None,
    ensures
        pressure_fields(toks) is None,
    decreases toks.len() - n,
{
    if n < toks.len() {
        assert(toks.take(n + 1).drop_last() =~= toks.take(n));
        lemma_fields_fail(toks, n + 1);
    } else {
        assert(toks.take(n) =~= toks);
    }
}


/// The `some` and `full` windows of the lines `ls`, in order (a later line
/// of a kind wins; other kinds change nothing); `None` if a line fails.
pub open spec fn pressure_lines(ls: Seq<Seq<char>>) -> Option<
    (
        Option<(Option<Seq<char>>, Option<Seq<char>>, Option<Seq<char>>, u64)>,
        Option<(Option<Seq<char>>, Option<Seq<char>>, Option<Seq<char>>, u64)>,
    ),
>
    decreases ls.len(),
{
    if ls.len() == 0 {
        Some((None, None))
    } else {
        match pressure_lines(ls.drop_last()) {
            None => None,
            Some(acc) => match pressure_line_spec(ls.last()) {
                None => None,
                Some(p) => Some(
                    if p.0 == "some"@ {
                        (Some(p.1), acc.1)
                    } else if p.0 == "full"@ {
                        (acc.0, Some(p.1))
                    } else {
                        acc
                    },
                ),
            },
        }
    }
}

/// A pressure file: its windows when every line reads and it has a `some`
/// or a `full` window.
pub open spec fn pressure_spec(content: Seq<char>) -> Option<
    (
        Option<(Option<Seq<char>>, Option<Seq<char>>, Option<Seq<char>>, u64)>,
        Option<(Option<Seq<char>>, Option<Seq<char>>, Option<Seq<char>>, u64)>,
    ),
> {
    match pressure_lines(lines(content)) {
        Some(m) => if m.0 is Some || m.1 is Some {
            Some(m)
        } else {
            None
        },
        None => None,
    }
}

proof fn lemma_lines_fail(ls: Seq<Seq<char>>, n: int)
    requires
        0 <= n <= ls.len(),
        pressure_lines(ls.take(n)) is None,
    ensures
        pressure_lines(ls) is None,
    decreases ls.len() - n,
{
    if n < ls.len() {
        assert(ls.take(n + 1).drop_last() =~= ls.take(n));
        lemma_lines_fail(ls, n + 1);
    } else {
        assert(ls.take(n) =~= ls);
    }
}

fn append_strings(dst: &mut Vec<String>, more: &Vec<String>)
    ensures
        strs(final(dst)@) == strs(old(dst)@) + strs(more@),
{
    let ghost start = dst@;
    let mut i: usize = 0;
    while i < more.len()
        invariant
            i <= more.len(),
            dst@.len() == start.len() + i,
            forall|k: int| 0 <= k < start.len() ==> (#[trigger] dst@[k])@ == start[k]@,
            forall|k: int| 0 <= k < i ==> (#[trigger] dst@[start.len() + k])@ == more@[k]@,
        decreases more.len() - i,
    {
        let c = more[i].clone();
        dst.push(c);
        i += 1;
    }
    assert forall|k: int| 0 <= k < dst@.len() implies #[trigger] strs(dst@)[k] == (strs(start) + strs(more@))[k] by {
        if k >= start.len() {
            let j = k - start.len();
            assert(dst@[start.len() + j]@ == more@[j]@);
        }
    }
    assert(strs(dst@) =~= strs(start) + strs(more@));
}

/// The windows of a pressure file; `None` when a line fails or neither a
/// `some` nor a `full` line is there.
pub fn parse_pressure_text(content: &str) -> (r: Option<PressureText>)
    ensures
        match r {
            Some(m) => pressure_spec(content@) == Some((opt_window(m.some), opt_window(m.full))) && strs(m.averages@)
                == file_avg_texts(lines(content@)),
            None => pressure_spec(content@) is None,
        },
{
    let ls = split_lines(&chars_of(content));
    let ghost lv = views(ls@);
    let mut m = PressureText { some: None, full: None, averages: Vec::new() };
    assert(strs(m.averages@) =~= Seq::<Seq<char>>::empty());
    let mut i: usize = 0;
    while i < ls.len()
        invariant
            i <= ls.len(),
            lv == views(ls@),
            lv == lines(content@),
            pressure_lines(lv.take(i as int)) == Some((opt_window(m.some), opt_window(m.full))),
            strs(m.averages@) == file_avg_texts(lv.take(i as int)),
        decreases ls.len() - i,
    {
        assert(lv.take(i + 1).drop_last() =~= lv.take(i as int));
        assert(lv.take(i + 1).last() == ls@[i as int]@);
        let line = string_of(&ls[i]);
        match parse_pressure_line(line.as_str()) {
            None => {
                proof {
                    lemma_lines_fail(lv, i + 1);
                }
                return None;
            },
            Some((kind, w)) => {
                append_strings(&mut m.averages, &w.averages);
                if str_eq(kind.as_str(), "some") {
                    m.some = Some(w);
                } else if str_eq(kind.as_str(), "full") {
                    m.full = Some(w);
                }
            },
        }
        i += 1;
    }
    assert(lv.take(ls.len() as int) =~= lv);
    if m.some.is_none() && m.full.is_none() {
        None
    } else {
        Some(m)
    }
}

} // verus!
