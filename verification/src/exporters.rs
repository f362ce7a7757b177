//! The text formats of the exporters: CSV rows, Prometheus exposition lines
//! and the escaping each one needs. The numbers themselves, fractional
//! percentages among them, are written by the program around the library.
use vstd::prelude::*;
use crate::text::{chars_of, is_ascii_alnum, push_char, push_i64, push_str, signed_decimal};

verus! {

broadcast use vstd::string::group_string_axioms;

/// CSV export.
pub struct CsvExporter;

/// JSON export.
pub struct JsonExporter;

/// Prometheus text exposition.
pub struct PrometheusExporter;

impl CsvExporter {
    pub fn name(&self) -> (r: &'static str)
        ensures
            r@ == seq!['c', 's', 'v'],
    {
        proof {
            reveal_strlit("csv");
        }
        "csv"
    }
}

impl JsonExporter {
    pub fn name(&self) -> (r: &'static str)
        ensures
            r@ == seq!['j', 's', 'o', 'n'],
    {
        proof {
            reveal_strlit("json");
        }
        "json"
    }
}

impl PrometheusExporter {
    pub fn name(&self) -> (r: &'static str)
        ensures
            r@ == "prometheus"@,
    {
        "prometheus"
    }
}

/// A Prometheus label value: `\` becomes `\\` and `"` becomes `\"`.
pub open spec fn escape_spec(s: Seq<char>) -> Seq<char>
    decreases s.len(),
{
    if s.len() == 0 {
        Seq::empty()
    } else {
        let c = s.last();
        escape_spec(s.drop_last()) + if c == '\\' {
            seq!['\\', '\\']
        } else if c == '"' {
            seq!['\\', '"']
        } else {
            seq![c]
        }
    }
}

/// Escapes a Prometheus label value.
pub fn escape_label(value: &str) -> (r: String)
    ensures
        r@ == escape_spec(value@),
{
    let v = chars_of(value);
    let mut out = String::new();
    let mut i: usize = 0;
    while i < v.len()
        invariant
            i <= v.len(),
            out@ == escape_spec(v@.take(i as int)),
        decreases v.len() - i,
    {
        assert(v@.take(i + 1).drop_last() =~= v@.take(i as int));
        let c = v[i];
        if c == '\\' {
            push_char(&mut out, '\\');
            push_char(&mut out, '\\');
        } else if c == '"' {
            push_char(&mut out, '\\');
            push_char(&mut out, '"');
        } else {
            push_char(&mut out, c);
        }
        assert(out@ =~= escape_spec(v@.take(i + 1)));
        i += 1;
    }
    assert(v@.take(v.len() as int) =~= v@);
    out
}

/// A CSV metric name part: ASCII letters and digits stay, anything else
/// becomes `_`.
pub open spec fn metric_label_spec(s: Seq<char>) -> Seq<char> {
    Seq::new(s.len(), |i: int| if is_ascii_alnum(s[i]) { s[i] } else { '_' })
}

pub fn metric_label(value: &str) -> (r: String)
    ensures
        r@ == metric_label_spec(value@),
{
    let v = chars_of(value);
    let mut out = String::new();
    let mut i: usize = 0;
    while i < v.len()
        invariant
            i <= v.len(),
            out@ =~= Seq::new(
                i as nat,
                |k: int| if is_ascii_alnum(v@[k]) { v@[k] } else { '_' },
            ),
        decreases v.len() - i,
    {
        let c = v[i];
        let keep = ('0' <= c && c <= '9') || ('a' <= c && c <= 'z') || ('A' <= c && c <= 'Z');
        push_char(
            &mut out,
            if keep {
                c
            } else {
                '_'
            },
        );
        i += 1;
    }
    out
}

/// The two comment lines that introduce a gauge:
/// `# HELP <name> <help>` and `# TYPE <name> gauge`.
pub open spec fn gauge_header_spec(name: Seq<char>, help: Seq<char>) -> Seq<char> {
    "# HELP "@ + name + seq![' '] + help + seq!['\n'] + "# TYPE "@ + name + " gauge\n"@
}

pub fn gauge_header(name: &str, help: &str) -> (r: String)
    ensures
        r@ == gauge_header_spec(name@, help@),
{
    let mut s = String::new();
    push_str(&mut s, "# HELP ");
    push_str(&mut s, name);
    push_char(&mut s, ' ');
    push_str(&mut s, help);
    push_char(&mut s, '\n');
    push_str(&mut s, "# TYPE ");
    push_str(&mut s, name);
    push_str(&mut s, " gauge\n");
    s
}

/// One label: `key="value"`.
pub open spec fn label_pair(l: (Seq<char>, Seq<char>)) -> Seq<char> {
    l.0 + seq!['=', '"'] + l.1 + seq!['"']
}

/// Labels separated by commas.
pub open spec fn joined_labels(labels: Seq<(Seq<char>, Seq<char>)>) -> Seq<char>
    decreases labels.len(),
{
    if labels.len() <= 1 {
        if labels.len() == 0 {
            Seq::empty()
        } else {
            label_pair(labels[0])
        }
    } else {
        joined_labels(labels.drop_last()) + seq![','] + label_pair(labels.last())
    }
}

/// The label set of a sample: `{k1="v1",k2="v2"}`, or nothing without
/// labels. Values are written as given.
pub open spec fn labels_spec(labels: Seq<(Seq<char>, Seq<char>)>) -> Seq<char> {
    if labels.len() == 0 {
        Seq::empty()
    } else {
        seq!['{'] + joined_labels(labels) + seq!['}']
    }
}

pub open spec fn label_views(labels: Seq<(&'static str, String)>) -> Seq<(Seq<char>, Seq<char>)> {
    labels.map_values(|l: (&'static str, String)| (l.0@, l.1@))
}

/// One sample line: the metric name, its labels, a space, the value and a
/// newline.
pub open spec fn sample_spec(
    name: Seq<char>,
    labels: Seq<(Seq<char>, Seq<char>)>,
    value: Seq<char>,
) -> Seq<char> {
    name + labels_spec(labels) + seq![' '] + value + seq!['\n']
}

pub fn sample_line(name: &str, labels: &Vec<(&'static str, String)>, value: &str) -> (r: String)
    ensures
        r@ == sample_spec(name@, label_views(labels@), value@),
{
    let ghost lv = label_views(labels@);
    let mut body = String::new();
    let mut i: usize = 0;
    while i < labels.len()
        invariant
            i <= labels.len(),
            lv == label_views(labels@),
            body@ == joined_labels(lv.take(i as int)),
        decreases labels.len() - i,
    {
        let ghost t = lv.take(i + 1);
        assert(t.drop_last() =~= lv.take(i as int));
        assert(t.last() == (labels@[i as int].0@, labels@[i as int].1@));
        if i > 0 {
            push_char(&mut body, ',');
        }
        push_str(&mut body, labels[i].0);
        push_char(&mut body, '=');
        push_char(&mut body, '"');
        push_str(&mut body, labels[i].1.as_str());
        push_char(&mut body, '"');
        proof {
            if i == 0 {
                assert(lv.take(0) =~= Seq::<(Seq<char>, Seq<char>)>::empty());
                assert(t.len() == 1);
            }
            assert(body@ =~= joined_labels(t));
        }
        i += 1;
    }
    assert(lv.take(labels.len() as int) =~= lv);
    let mut s = String::new();
    push_str(&mut s, name);
    if labels.len() > 0 {
        push_char(&mut s, '{');
        push_str(&mut s, body.as_str());
        push_char(&mut s, '}');
    }
    push_char(&mut s, ' ');
    push_str(&mut s, value);
    push_char(&mut s, '\n');
    assert(s@ =~= sample_spec(name@, lv, value@));
    s
}

/// The header row of the CSV export.
pub fn csv_header() -> (r: &'static str)
    ensures
        r@ == "timestamp,metric,value\n"@,
{
    "timestamp,metric,value\n"
}

/// One CSV row: `<timestamp>,<metric>,<value>` and a newline.
pub open spec fn csv_row_spec(timestamp: int, metric: Seq<char>, value: Seq<char>) -> Seq<char> {
    signed_decimal(timestamp) + seq![','] + metric + seq![','] + value + seq!['\n']
}

pub fn csv_row(timestamp: i64, metric: &str, value: &str) -> (r: String)
    ensures
        r@ == csv_row_spec(timestamp as int, metric@, value@),
{
    let mut s = String::new();
    push_i64(&mut s, timestamp);
    push_char(&mut s, ',');
    push_str(&mut s, metric);
    push_char(&mut s, ',');
    push_str(&mut s, value);
    push_char(&mut s, '\n');
    assert(s@ =~= csv_row_spec(timestamp as int, metric@, value@));
    s
}

/// The CSV rows of one snapshot, in order.
pub open spec fn csv_rows_spec(timestamp: int, rows: Seq<(Seq<char>, Seq<char>)>) -> Seq<char>
    decreases rows.len(),
{
    if rows.len() == 0 {
        Seq::empty()
    } else {
        csv_rows_spec(timestamp, rows.drop_last()) + csv_row_spec(
            timestamp,
            rows.last().0,
            rows.last().1,
        )
    }
}

/// Rows as metric name and value.
pub open spec fn row_views(rows: Seq<(String, String)>) -> Seq<(Seq<char>, Seq<char>)> {
    rows.map_values(|p: (String, String)| (p.0@, p.1@))
}

/// The CSV text of one snapshot: the header row, then one row per
/// `(metric, value)`, all stamped with `timestamp`.
pub fn csv_text(timestamp: i64, rows: &Vec<(String, String)>) -> (r: String)
    ensures
        r@ == "timestamp,metric,value\n"@ + csv_rows_spec(timestamp as int, row_views(rows@)),
{
    let ghost rv = row_views(rows@);
    let mut out = String::new();
    push_str(&mut out, csv_header());
    let ghost head = out@;
    let mut i: usize = 0;
    while i < rows.len()
        invariant
            i <= rows.len(),
            rv == row_views(rows@),
            head == "timestamp,metric,value\n"@,
            out@ == head + csv_rows_spec(timestamp as int, rv.take(i as int)),
        decreases rows.len() - i,
    {
        assert(rv.take(i + 1).drop_last() =~= rv.take(i as int));
        assert(rv.take(i + 1).last() == (rows@[i as int].0@, rows@[i as int].1@));
        let row = csv_row(timestamp, rows[i].0.as_str(), rows[i].1.as_str());
        push_str(&mut out, row.as_str());
        assert(out@ =~= head + csv_rows_spec(timestamp as int, rv.take(i + 1)));
        i += 1;
    }
    assert(rv.take(rows.len() as int) =~= rv);
    out
}

} // verus!
