//! The text of the dashboard's header, footer and reference panel: which
//! lines appear at which terminal width, and which spans, in which style,
//! each line holds. Drawing them belongs to the front end.
use vstd::prelude::*;
use crate::dashboard::{
    escape_hint, footer_rows, header_rows, panel_toggle_text, reference_header_text, reference_status_text,
    text, text_spec, visible_status_text, DashboardState, OperatorMode, PanelVisibility, ReferenceUiState,
    ReferenceWidgetState, SpecialistView, Panel,
};
use crate::export::NetFigures;
use crate::reference::{Locale, MetricStatus, SearchHit, UiVisibility};
use crate::text::{decimal, push_str, push_u64};

verus! {

broadcast use vstd::string::group_string_axioms;

/// How a span of text is drawn; the theme gives each style its colours.
#[derive(Debug, Clone, Copy, PartialEq, Eq, Structural)]
pub enum TextStyle {
    Plain,
    Title,
    Highlight,
    Muted,
    Alert,
}

/// The spans of a line, each as its text and style.
pub open spec fn span_views(v: Seq<(String, TextStyle)>) -> Seq<(Seq<char>, TextStyle)> {
    v.map_values(|p: (String, TextStyle)| (p.0@, p.1))
}

/// Lines of spans, each span as its text and style.
pub open spec fn line_views(v: Seq<Vec<(String, TextStyle)>>) -> Seq<Seq<(Seq<char>, TextStyle)>> {
    v.map_values(|l: Vec<(String, TextStyle)>| span_views(l@))
}

fn owned(s: &str) -> (r: String)
    ensures
        r@ == s@,
{
    let mut r = String::new();
    push_str(&mut r, s);
    r
}

fn add_span(line: &mut Vec<(String, TextStyle)>, text: String, style: TextStyle)
    ensures
        span_views(final(line)@) == span_views(old(line)@).push((text@, style)),
{
    let ghost before = line@;
    line.push((text, style));
    assert forall|k: int| 0 <= k < line@.len() implies #[trigger] span_views(line@)[k]
        == span_views(before).push((text@, style))[k] by {
        if k < before.len() {
            assert(line@[k] == before[k]);
        }
    }
    assert(span_views(line@) =~= span_views(before).push((text@, style)));
}

fn add_str(line: &mut Vec<(String, TextStyle)>, text: &str, style: TextStyle)
    ensures
        span_views(final(line)@) == span_views(old(line)@).push((text@, style)),
{
    add_span(line, owned(text), style);
}

fn add_all(line: &mut Vec<(String, TextStyle)>, more: Vec<(String, TextStyle)>)
    ensures
        span_views(final(line)@) == span_views(old(line)@) + span_views(more@),
{
    let ghost before = line@;
    let mut more = more;
    let ghost m = more@;
    line.append(&mut more);
    assert(line@ =~= before + m);
    assert forall|k: int| 0 <= k < line@.len() implies #[trigger] span_views(line@)[k]
        == (span_views(before) + span_views(m))[k] by {
        if k < before.len() {
            assert(line@[k] == before[k]);
        } else {
            assert(line@[k] == m[k - before.len()]);
        }
    }
    assert(span_views(line@) =~= span_views(before) + span_views(m));
}

fn add_line(lines: &mut Vec<Vec<(String, TextStyle)>>, line: Vec<(String, TextStyle)>)
    ensures
        line_views(final(lines)@) == line_views(old(lines)@).push(span_views(line@)),
{
    let ghost before = lines@;
    let ghost l = line@;
    lines.push(line);
    assert forall|k: int| 0 <= k < lines@.len() implies #[trigger] line_views(lines@)[k]
        == line_views(before).push(span_views(l))[k] by {
        if k < before.len() {
            assert(lines@[k] == before[k]);
        }
    }
    assert(line_views(lines@) =~= line_views(before).push(span_views(l)));
}

// ─── Header ─────────────────────────────────────────────────────────────────
/// `mode:<operator mode>`.
pub open spec fn mode_text(s: DashboardState) -> Seq<char> {
    text_spec(s.locale, "mode", "mode")@ + ":"@ + s.operator_mode.label_spec(s.locale)@
}

/// `lang:<code>`.
pub open spec fn lang_text(s: DashboardState) -> Seq<char> {
    text_spec(s.locale, "lang", "lang")@ + ":"@ + s.locale.code_spec()
}

/// The reference status of the header, muted without a query.
pub open spec fn reference_header_span(locale: Locale, query: Seq<char>) -> (Seq<char>, TextStyle) {
    if query.len() == 0 {
        (text_spec(locale, "index", "index")@ + seq![':'] + text_spec(locale, "off", "off")@, TextStyle::Muted)
    } else {
        (text_spec(locale, "search", "search")@ + seq![':'] + query, TextStyle::Highlight)
    }
}

/// The header's context line: mode, language and reference status.
pub open spec fn context_line(s: DashboardState, query: Seq<char>) -> Seq<(Seq<char>, TextStyle)> {
    seq![
        (mode_text(s), TextStyle::Highlight),
        ("  "@, TextStyle::Plain),
        (lang_text(s), TextStyle::Highlight),
        ("  "@, TextStyle::Plain),
        reference_header_span(s.locale, query),
    ]
}

/// The header: one line from 150 columns, two from 95, three below.
pub open spec fn header_spec(
    s: DashboardState,
    hostname: Seq<char>,
    os: Seq<char>,
    uptime: Seq<char>,
    ts: Seq<char>,
    query: Seq<char>,
    width: u16,
) -> Seq<Seq<(Seq<char>, TextStyle)>> {
    let title = (" ◉ PULSAR "@, TextStyle::Title);
    let gap = ("  "@, TextStyle::Plain);
    if width >= 150 {
        seq![
            seq![title, ("  "@ + hostname + "  "@ + os + "  "@ + uptime + "  "@ + ts, TextStyle::Plain), gap]
                + context_line(s, query),
        ]
    } else if width >= 95 {
        seq![
            seq![
                title,
                ("  "@ + hostname, TextStyle::Plain),
                gap,
                (os, TextStyle::Muted),
                gap,
                (uptime, TextStyle::Muted),
                gap,
                (ts, TextStyle::Highlight),
            ],
            context_line(s, query),
        ]
    } else {
        seq![
            seq![title, ("  "@ + hostname, TextStyle::Plain), gap, (ts, TextStyle::Highlight)],
            seq![(os, TextStyle::Muted), gap, (uptime, TextStyle::Muted)],
            context_line(s, query),
        ]
    }
}

fn label_pair(a: &str, b: &str) -> (r: String)
    ensures
        r@ == a@ + ":"@ + b@,
{
    let mut t = String::new();
    push_str(&mut t, a);
    push_str(&mut t, ":");
    push_str(&mut t, b);
    t
}

fn context_spans(s: &DashboardState, query: &str) -> (r: Vec<(String, TextStyle)>)
    ensures
        span_views(r@) == context_line(*s, query@),
{
    let mut l: Vec<(String, TextStyle)> = Vec::new();
    add_span(&mut l, label_pair(text(s.locale, "mode", "mode"), s.operator_mode.label(s.locale)), TextStyle::Highlight);
    add_str(&mut l, "  ", TextStyle::Plain);
    add_span(&mut l, label_pair(text(s.locale, "lang", "lang"), s.locale.code()), TextStyle::Highlight);
    add_str(&mut l, "  ", TextStyle::Plain);
    let style = if query.is_empty() {
        TextStyle::Muted
    } else {
        TextStyle::Highlight
    };
    add_span(&mut l, reference_header_text(s.locale, query), style);
    assert(span_views(l@) =~= context_line(*s, query@));
    l
}

/// The header's lines for a terminal `width` columns wide.
pub fn header_lines(
    s: &DashboardState,
    hostname: &str,
    os: &str,
    uptime: &str,
    ts: &str,
    reference: &ReferenceUiState,
    width: u16,
) -> (r: Vec<Vec<(String, TextStyle)>>)
    ensures
        line_views(r@) == header_spec(*s, hostname@, os@, uptime@, ts@, reference.query@, width),
{
    let query = reference.query.as_str();
    let mut r: Vec<Vec<(String, TextStyle)>> = Vec::new();
    let mut first: Vec<(String, TextStyle)> = Vec::new();
    add_str(&mut first, " ◉ PULSAR ", TextStyle::Title);
    let mut host = String::new();
    push_str(&mut host, "  ");
    push_str(&mut host, hostname);
    if width >= 150 {
        push_str(&mut host, "  ");
        push_str(&mut host, os);
        push_str(&mut host, "  ");
        push_str(&mut host, uptime);
        push_str(&mut host, "  ");
        push_str(&mut host, ts);
        add_span(&mut first, host, TextStyle::Plain);
        add_str(&mut first, "  ", TextStyle::Plain);
        add_all(&mut first, context_spans(s, query));
        add_line(&mut r, first);
    } else if width >= 95 {
        add_span(&mut first, host, TextStyle::Plain);
        add_str(&mut first, "  ", TextStyle::Plain);
        add_str(&mut first, os, TextStyle::Muted);
        add_str(&mut first, "  ", TextStyle::Plain);
        add_str(&mut first, uptime, TextStyle::Muted);
        add_str(&mut first, "  ", TextStyle::Plain);
        add_str(&mut first, ts, TextStyle::Highlight);
        add_line(&mut r, first);
        add_line(&mut r, context_spans(s, query));
    } else {
        add_span(&mut first, host, TextStyle::Plain);
        add_str(&mut first, "  ", TextStyle::Plain);
        add_str(&mut first, ts, TextStyle::Highlight);
        add_line(&mut r, first);
        let mut second: Vec<(String, TextStyle)> = Vec::new();
        add_str(&mut second, os, TextStyle::Muted);
        add_str(&mut second, "  ", TextStyle::Plain);
        add_str(&mut second, uptime, TextStyle::Muted);
        add_line(&mut r, second);
        add_line(&mut r, context_spans(s, query));
    }
    assert(line_views(r@) =~~= header_spec(*s, hostname@, os@, uptime@, ts@, query@, width));
    r
}


// ─── Footer ─────────────────────────────────────────────────────────────────
/// A key of the footer: a space and the key, highlighted.
pub open spec fn key_span(key: Seq<char>) -> (Seq<char>, TextStyle) {
    (" "@ + key, TextStyle::Highlight)
}

/// What a key does: `:<label>` and two spaces.
pub open spec fn hint(label: Seq<char>) -> (Seq<char>, TextStyle) {
    (":"@ + label + "  "@, TextStyle::Plain)
}

/// What a key does, with its current value: `:<label>(<value>)` and two spaces.
pub open spec fn hint_with(label: Seq<char>, value: Seq<char>) -> (Seq<char>, TextStyle) {
    (":"@ + label + "("@ + value + ")  "@, TextStyle::Plain)
}

/// The footer's navigation line.
pub open spec fn nav_line(s: DashboardState, reference: ReferenceUiState) -> Seq<(Seq<char>, TextStyle)> {
    let l = s.locale;
    seq![
        key_span("q"@),
        hint(text_spec(l, "quitter", "quit")@),
        key_span("r"@),
        hint(text_spec(l, "refresh", "refresh")@),
        key_span("t"@),
        hint_with(text_spec(l, "theme", "theme")@, s.theme_name@),
        key_span("i"@),
        hint_with(text_spec(l, "lang", "lang")@, l.code_spec()),
        key_span("v"@),
        hint_with(text_spec(l, "detail", "detail")@, s.detail_level.label_spec(l)@),
        key_span("/"@),
        hint(text_spec(l, "search", "search")@),
        key_span("?"@),
        hint(text_spec(l, "index", "index")@),
        key_span("esc"@),
        (
            (if reference.input_active {
                text_spec(l, ":fermer recherche", ":close search")
            } else if reference.visible {
                text_spec(l, ":fermer index", ":close index")
            } else {
                text_spec(l, ":vider", ":clear")
            })@,
            TextStyle::Plain,
        ),
    ]
}

/// The footer's operator-mode line.
pub open spec fn modes_line(l: Locale) -> Seq<(Seq<char>, TextStyle)> {
    seq![
        key_span("1"@),
        hint(OperatorMode::Overview.label_spec(l)@),
        key_span("2"@),
        hint(OperatorMode::Storage.label_spec(l)@),
        key_span("3"@),
        hint(OperatorMode::Network.label_spec(l)@),
        key_span("4"@),
        hint(OperatorMode::Process.label_spec(l)@),
        key_span("5"@),
        hint(OperatorMode::Pressure.label_spec(l)@),
        key_span("6"@),
        hint(OperatorMode::Full.label_spec(l)@),
    ]
}

/// The footer's specialist-view line, ending with the current view (muted
/// when there is none).
pub open spec fn expert_line(s: DashboardState) -> Seq<(Seq<char>, TextStyle)> {
    let l = s.locale;
    seq![
        key_span("7"@),
        hint(SpecialistView::Pressure.label_spec(l)@),
        key_span("8"@),
        hint(SpecialistView::Network.label_spec(l)@),
        key_span("9"@),
        hint(SpecialistView::Jvm.label_spec(l)@),
        key_span("0"@),
        hint(SpecialistView::DiskPressure.label_spec(l)@),
        key_span("g"@),
        hint(SpecialistView::DiskInventory.label_spec(l)@),
        key_span("-"@),
        hint(text_spec(l, "retour normal", "clear expert")@),
        (
            text_spec(l, "expert", "expert")@ + ":"@ + s.specialist_view.label_spec(l)@,
            if s.specialist_view == SpecialistView::Off {
                TextStyle::Muted
            } else {
                TextStyle::Highlight
            },
        ),
    ]
}

/// A panel switch: `key:label`, highlighted, or `key:label off`, muted.
pub open spec fn toggle_span(key: Seq<char>, label: Seq<char>, visible: bool) -> (Seq<char>, TextStyle) {
    (
        key + seq![':'] + label + if visible {
            Seq::<char>::empty()
        } else {
            " off"@
        },
        if visible {
            TextStyle::Highlight
        } else {
            TextStyle::Muted
        },
    )
}

/// The footer's panel switches.
pub open spec fn panels_line(l: Locale, v: PanelVisibility) -> Seq<(Seq<char>, TextStyle)> {
    let gap = ("  "@, TextStyle::Plain);
    seq![
        toggle_span("s"@, text_spec(l, "sys", "sys")@, v.system),
        gap,
        toggle_span("c"@, text_spec(l, "cpu", "cpu")@, v.cpu),
        gap,
        toggle_span("m"@, text_spec(l, "mem", "mem")@, v.memory),
        gap,
        toggle_span("l"@, text_spec(l, "linux", "linux")@, v.linux),
        gap,
        toggle_span("d"@, text_spec(l, "disk", "disk")@, v.disk),
        gap,
        toggle_span("n"@, text_spec(l, "net", "net")@, v.network),
        gap,
        toggle_span("a"@, text_spec(l, "alertes", "alerts")@, v.alerts),
        gap,
        toggle_span("p"@, text_spec(l, "proc", "proc")@, v.process),
    ]
}

/// The footer's status line: visible panels, alert counts (in the alert
/// style when there are alerts), the reference query, and from 140 columns
/// the program's version.
pub open spec fn status_line(
    s: DashboardState,
    alerts: nat,
    warnings: nat,
    criticals: nat,
    query: Seq<char>,
    version: Seq<char>,
    width: u16,
) -> Seq<(Seq<char>, TextStyle)> {
    let l = s.locale;
    seq![
        (
            text_spec(l, "visibles", "visible")@ + seq![':'] + decimal(s.visibility.count_spec()) + "/8  "@,
            TextStyle::Highlight,
        ),
        (
            text_spec(l, "alertes", "alerts")@ + ":"@ + decimal(alerts) + " w:"@ + decimal(warnings) + " c:"@
                + decimal(criticals) + "  "@,
            if alerts > 0 {
                TextStyle::Alert
            } else {
                TextStyle::Highlight
            },
        ),
        (
            text_spec(l, "reference", "reference")@ + seq![':'] + if query.len() == 0 {
                text_spec(l, "tout", "all")@
            } else {
                query
            },
            if query.len() == 0 {
                TextStyle::Muted
            } else {
                TextStyle::Highlight
            },
        ),
        (
            if width >= 140 {
                "  Pulsar v"@ + version
            } else {
                Seq::<char>::empty()
            },
            TextStyle::Plain,
        ),
    ]
}

/// The footer: three lines from 180 columns (modes, panels and status
/// joined), four from 120 (panels and status joined), five below.
pub open spec fn footer_spec(
    s: DashboardState,
    alerts: nat,
    warnings: nat,
    criticals: nat,
    reference: ReferenceUiState,
    version: Seq<char>,
    width: u16,
) -> Seq<Seq<(Seq<char>, TextStyle)>> {
    let gap = seq![("  "@, TextStyle::Plain)];
    let nav = nav_line(s, reference);
    let expert = expert_line(s);
    let modes = modes_line(s.locale);
    let panels = panels_line(s.locale, s.visibility);
    let status = status_line(s, alerts, warnings, criticals, reference.query@, version, width);
    if width >= 180 {
        seq![nav, expert, modes + gap + panels + gap + status]
    } else if width >= 120 {
        seq![nav, expert, modes, panels + gap + status]
    } else {
        seq![nav, expert, modes, panels, status]
    }
}

fn hint_text(label: &str) -> (r: String)
    ensures
        r@ == hint(label@).0,
{
    let mut t = String::new();
    push_str(&mut t, ":");
    push_str(&mut t, label);
    push_str(&mut t, "  ");
    t
}

fn hint_with_text(label: &str, value: &str) -> (r: String)
    ensures
        r@ == hint_with(label@, value@).0,
{
    let mut t = String::new();
    push_str(&mut t, ":");
    push_str(&mut t, label);
    push_str(&mut t, "(");
    push_str(&mut t, value);
    push_str(&mut t, ")  ");
    t
}

fn key_text(key: &str) -> (r: String)
    ensures
        r@ == key_span(key@).0,
{
    let mut t = String::new();
    push_str(&mut t, " ");
    push_str(&mut t, key);
    t
}

fn add_key(line: &mut Vec<(String, TextStyle)>, key: &str, label: &str)
    ensures
        span_views(final(line)@) == span_views(old(line)@).push(key_span(key@)).push(hint(label@)),
{
    add_span(line, key_text(key), TextStyle::Highlight);
    add_span(line, hint_text(label), TextStyle::Plain);
}

fn nav_spans(s: &DashboardState, reference: &ReferenceUiState) -> (r: Vec<(String, TextStyle)>)
    ensures
        span_views(r@) == nav_line(*s, *reference),
{
    let l = s.locale;
    let mut v: Vec<(String, TextStyle)> = Vec::new();
    add_key(&mut v, "q", text(l, "quitter", "quit"));
    add_key(&mut v, "r", text(l, "refresh", "refresh"));
    add_span(&mut v, key_text("t"), TextStyle::Highlight);
    add_span(&mut v, hint_with_text(text(l, "theme", "theme"), s.theme_name), TextStyle::Plain);
    add_span(&mut v, key_text("i"), TextStyle::Highlight);
    add_span(&mut v, hint_with_text(text(l, "lang", "lang"), l.code()), TextStyle::Plain);
    add_span(&mut v, key_text("v"), TextStyle::Highlight);
    add_span(&mut v, hint_with_text(text(l, "detail", "detail"), s.detail_level.label(l)), TextStyle::Plain);
    add_key(&mut v, "/", text(l, "search", "search"));
    add_key(&mut v, "?", text(l, "index", "index"));
    add_span(&mut v, key_text("esc"), TextStyle::Highlight);
    add_str(&mut v, escape_hint(l, reference), TextStyle::Plain);
    assert(span_views(v@) =~= nav_line(*s, *reference));
    v
}

fn modes_spans(l: Locale) -> (r: Vec<(String, TextStyle)>)
    ensures
        span_views(r@) == modes_line(l),
{
    let mut v: Vec<(String, TextStyle)> = Vec::new();
    add_key(&mut v, "1", OperatorMode::Overview.label(l));
    add_key(&mut v, "2", OperatorMode::Storage.label(l));
    add_key(&mut v, "3", OperatorMode::Network.label(l));
    add_key(&mut v, "4", OperatorMode::Process.label(l));
    add_key(&mut v, "5", OperatorMode::Pressure.label(l));
    add_key(&mut v, "6", OperatorMode::Full.label(l));
    assert(span_views(v@) =~= modes_line(l));
    v
}

fn expert_spans(s: &DashboardState) -> (r: Vec<(String, TextStyle)>)
    ensures
        span_views(r@) == expert_line(*s),
{
    let l = s.locale;
    let mut v: Vec<(String, TextStyle)> = Vec::new();
    add_key(&mut v, "7", SpecialistView::Pressure.label(l));
    add_key(&mut v, "8", SpecialistView::Network.label(l));
    add_key(&mut v, "9", SpecialistView::Jvm.label(l));
    add_key(&mut v, "0", SpecialistView::DiskPressure.label(l));
    add_key(&mut v, "g", SpecialistView::DiskInventory.label(l));
    add_key(&mut v, "-", text(l, "retour normal", "clear expert"));
    let style = match s.specialist_view {
        SpecialistView::Off => TextStyle::Muted,
        _ => TextStyle::Highlight,
    };
    add_span(&mut v, label_pair(text(l, "expert", "expert"), s.specialist_view.label(l)), style);
    assert(span_views(v@) =~= expert_line(*s));
    v
}

fn toggle(v: &mut Vec<(String, TextStyle)>, key: &str, label: &str, visible: bool)
    ensures
        span_views(final(v)@) == span_views(old(v)@).push(toggle_span(key@, label@, visible)),
{
    let style = if visible {
        TextStyle::Highlight
    } else {
        TextStyle::Muted
    };
    add_span(v, panel_toggle_text(key, label, visible), style);
}

fn panels_spans(l: Locale, vis: &PanelVisibility) -> (r: Vec<(String, TextStyle)>)
    ensures
        span_views(r@) == panels_line(l, *vis),
{
    let mut v: Vec<(String, TextStyle)> = Vec::new();
    toggle(&mut v, "s", text(l, "sys", "sys"), vis.system);
    add_str(&mut v, "  ", TextStyle::Plain);
    toggle(&mut v, "c", text(l, "cpu", "cpu"), vis.cpu);
    add_str(&mut v, "  ", TextStyle::Plain);
    toggle(&mut v, "m", text(l, "mem", "mem"), vis.memory);
    add_str(&mut v, "  ", TextStyle::Plain);
    toggle(&mut v, "l", text(l, "linux", "linux"), vis.linux);
    add_str(&mut v, "  ", TextStyle::Plain);
    toggle(&mut v, "d", text(l, "disk", "disk"), vis.disk);
    add_str(&mut v, "  ", TextStyle::Plain);
    toggle(&mut v, "n", text(l, "net", "net"), vis.network);
    add_str(&mut v, "  ", TextStyle::Plain);
    toggle(&mut v, "a", text(l, "alertes", "alerts"), vis.alerts);
    add_str(&mut v, "  ", TextStyle::Plain);
    toggle(&mut v, "p", text(l, "proc", "proc"), vis.process);
    assert(span_views(v@) =~= panels_line(l, *vis));
    v
}

fn status_spans(
    s: &DashboardState,
    alerts: usize,
    warnings: usize,
    criticals: usize,
    query: &str,
    version: &str,
    width: u16,
) -> (r: Vec<(String, TextStyle)>)
    ensures
        span_views(r@) == status_line(*s, alerts as nat, warnings as nat, criticals as nat, query@, version@, width),
{
    let l = s.locale;
    let mut v: Vec<(String, TextStyle)> = Vec::new();
    add_span(&mut v, visible_status_text(l, &s.visibility), TextStyle::Highlight);
    let mut a = String::new();
    push_str(&mut a, text(l, "alertes", "alerts"));
    push_str(&mut a, ":");
    push_u64(&mut a, alerts as u64);
    push_str(&mut a, " w:");
    push_u64(&mut a, warnings as u64);
    push_str(&mut a, " c:");
    push_u64(&mut a, criticals as u64);
    push_str(&mut a, "  ");
    let style = if alerts > 0 {
        TextStyle::Alert
    } else {
        TextStyle::Highlight
    };
    add_span(&mut v, a, style);
    let style = if query.is_empty() {
        TextStyle::Muted
    } else {
        TextStyle::Highlight
    };
    add_span(&mut v, reference_status_text(l, query), style);
    let mut tail = String::new();
    if width >= 140 {
        push_str(&mut tail, "  Pulsar v");
        push_str(&mut tail, version);
    }
    add_span(&mut v, tail, TextStyle::Plain);
    assert(span_views(v@) =~= status_line(*s, alerts as nat, warnings as nat, criticals as nat, query@, version@, width));
    v
}

/// The footer's lines for a terminal `width` columns wide; `alerts` is the
/// number of alerts, `warnings` and `criticals` those of each level, and
/// `version` the program's version.
pub fn footer_lines(
    s: &DashboardState,
    alerts: usize,
    warnings: usize,
    criticals: usize,
    reference: &ReferenceUiState,
    version: &str,
    width: u16,
) -> (r: Vec<Vec<(String, TextStyle)>>)
    ensures
        line_views(r@) == footer_spec(
            *s,
            alerts as nat,
            warnings as nat,
            criticals as nat,
            *reference,
            version@,
            width,
        ),
{
    let query = reference.query.as_str();
    let mut r: Vec<Vec<(String, TextStyle)>> = Vec::new();
    add_line(&mut r, nav_spans(s, reference));
    add_line(&mut r, expert_spans(s));
    let mut modes = modes_spans(s.locale);
    let mut panels = panels_spans(s.locale, &s.visibility);
    let status = status_spans(s, alerts, warnings, criticals, query, version, width);
    if width >= 180 {
        add_str(&mut modes, "  ", TextStyle::Plain);
        add_all(&mut modes, panels);
        add_str(&mut modes, "  ", TextStyle::Plain);
        add_all(&mut modes, status);
        add_line(&mut r, modes);
    } else if width >= 120 {
        add_line(&mut r, modes);
        add_str(&mut panels, "  ", TextStyle::Plain);
        add_all(&mut panels, status);
        add_line(&mut r, panels);
    } else {
        add_line(&mut r, modes);
        add_line(&mut r, panels);
        add_line(&mut r, status);
    }
    assert(line_views(r@) =~~= footer_spec(
        *s,
        alerts as nat,
        warnings as nat,
        criticals as nat,
        *reference,
        version@,
        width,
    ));
    r
}


// ─── Reference panel ────────────────────────────────────────────────────────
/// The reference panel's title: the index without a query, the search with one.
pub open spec fn reference_title_spec(locale: Locale, query: Seq<char>) -> &'static str {
    if query.len() == 0 {
        text_spec(locale, " ◉ INDEX TECHNIQUE ", " ◉ REFERENCE INDEX ")
    } else {
        text_spec(locale, " ◉ RECHERCHE TECHNIQUE ", " ◉ REFERENCE SEARCH ")
    }
}

/// The title of the reference panel.
pub fn reference_panel_title(state: &ReferenceWidgetState) -> (r: &'static str)
    ensures
        r == reference_title_spec(state.locale, state.query@),
{
    if state.query.is_empty() {
        text(state.locale, " ◉ INDEX TECHNIQUE ", " ◉ REFERENCE INDEX ")
    } else {
        text(state.locale, " ◉ RECHERCHE TECHNIQUE ", " ◉ REFERENCE SEARCH ")
    }
}

/// The name of a status, as the variant is written.
pub open spec fn status_name(s: MetricStatus) -> Seq<char> {
    match s {
        MetricStatus::Implemented => "Implemented"@,
        MetricStatus::Partial => "Partial"@,
        MetricStatus::Planned => "Planned"@,
    }
}

/// The name of a visibility, as the variant is written.
pub open spec fn visibility_name(v: UiVisibility) -> Seq<char> {
    match v {
        UiVisibility::Visible => "Visible"@,
        UiVisibility::IndexedOnly => "IndexedOnly"@,
    }
}

/// The two lines of one hit: marker, panel, title, category and
/// status/visibility; then the summary. The selected hit is highlighted.
pub open spec fn hit_rows(h: SearchHit, selected: bool) -> Seq<Seq<(Seq<char>, TextStyle)>> {
    let style = if selected {
        TextStyle::Highlight
    } else {
        TextStyle::Muted
    };
    seq![
        seq![
            ((if selected {
                ">"@
            } else {
                " "@
            }) + " "@ + h.entry.panel@ + " "@, style),
            (h.entry.title@, style),
            (" "@, TextStyle::Plain),
            (h.entry.category@, TextStyle::Highlight),
            (" "@, TextStyle::Plain),
            (status_name(h.entry.status) + "/"@ + visibility_name(h.entry.ui_visibility), TextStyle::Muted),
        ],
        seq![(h.entry.summary@, TextStyle::Plain)],
    ]
}

/// The lines of the first `n` hits.
pub open spec fn hit_lines(hits: Seq<SearchHit>, selected: usize, n: nat) -> Seq<Seq<(Seq<char>, TextStyle)>>
    decreases n,
{
    if n == 0 {
        Seq::empty()
    } else {
        hit_lines(hits, selected, (n - 1) as nat) + hit_rows(hits[n - 1], n - 1 == selected)
    }
}

/// The reference panel's lines inside an area `width` by `height`: none in
/// an empty area; a hint (muted) without hits; else the query, the mode and
/// visibility counts, a blank line, and as many hits as the rest of the
/// height holds.
pub open spec fn reference_panel_spec(state: ReferenceWidgetState, width: u16, height: u16) -> Seq<
    Seq<(Seq<char>, TextStyle)>,
> {
    let l = state.locale;
    let hits = state.hits@;
    if width == 0 || height == 0 {
        Seq::empty()
    } else if hits.len() == 0 {
        seq![
            seq![
                (
                    (if state.query@.len() == 0 {
                        text_spec(l, "Appuyez sur / pour rechercher un terme technique.", "Press / to search technical terms.")
                    } else {
                        text_spec(l, "Aucune entree ne correspond a cette recherche.", "No reference entry matches this query.")
                    })@,
                    TextStyle::Muted,
                ),
            ],
        ]
    } else {
        let rows: nat = if height < 3 {
            0
        } else if hits.len() < height - 3 {
            hits.len()
        } else {
            (height - 3) as nat
        };
        seq![
            seq![
                (text_spec(l, "requete", "query")@ + ": "@, TextStyle::Highlight),
                (if state.query@.len() == 0 {
                    "(index)"@
                } else {
                    state.query@
                }, TextStyle::Plain),
            ],
            seq![
                (text_spec(l, "mode", "mode")@ + ": "@, TextStyle::Highlight),
                (state.mode@, TextStyle::Plain),
                ("  "@, TextStyle::Plain),
                (text_spec(l, "ui", "ui")@ + ": "@, TextStyle::Highlight),
                (
                    decimal(state.visible_count as nat) + " "@ + text_spec(l, "visibles", "visible")@ + " / "@
                        + decimal(state.indexed_only_count as nat) + " "@ + text_spec(l, "indexes", "indexed")@,
                    TextStyle::Plain,
                ),
            ],
            Seq::empty(),
        ] + hit_lines(hits, state.selected, rows)
    }
}

fn status_text(s: MetricStatus, v: UiVisibility) -> (r: String)
    ensures
        r@ == status_name(s) + "/"@ + visibility_name(v),
{
    let mut t = String::new();
    match s {
        MetricStatus::Implemented => push_str(&mut t, "Implemented"),
        MetricStatus::Partial => push_str(&mut t, "Partial"),
        MetricStatus::Planned => push_str(&mut t, "Planned"),
    }
    push_str(&mut t, "/");
    match v {
        UiVisibility::Visible => push_str(&mut t, "Visible"),
        UiVisibility::IndexedOnly => push_str(&mut t, "IndexedOnly"),
    }
    t
}

fn with_colon(label: &str) -> (r: String)
    ensures
        r@ == label@ + ": "@,
{
    let mut t = String::new();
    push_str(&mut t, label);
    push_str(&mut t, ": ");
    t
}

/// The lines of the reference panel inside an area `width` by `height`.
pub fn reference_panel_lines(state: &ReferenceWidgetState, width: u16, height: u16) -> (r: Vec<
    Vec<(String, TextStyle)>,
>)
    ensures
        line_views(r@) == reference_panel_spec(*state, width, height),
{
    let l = state.locale;
    let mut r: Vec<Vec<(String, TextStyle)>> = Vec::new();
    if width == 0 || height == 0 {
        assert(line_views(r@) =~= reference_panel_spec(*state, width, height));
        return r;
    }
    if state.hits.len() == 0 {
        let msg = if state.query.is_empty() {
            text(l, "Appuyez sur / pour rechercher un terme technique.", "Press / to search technical terms.")
        } else {
            text(l, "Aucune entree ne correspond a cette recherche.", "No reference entry matches this query.")
        };
        let mut line: Vec<(String, TextStyle)> = Vec::new();
        add_str(&mut line, msg, TextStyle::Muted);
        add_line(&mut r, line);
        assert(line_views(r@) =~~= reference_panel_spec(*state, width, height));
        return r;
    }
    let mut q: Vec<(String, TextStyle)> = Vec::new();
    add_span(&mut q, with_colon(text(l, "requete", "query")), TextStyle::Highlight);
    if state.query.is_empty() {
        add_str(&mut q, "(index)", TextStyle::Plain);
    } else {
        add_str(&mut q, state.query, TextStyle::Plain);
    }
    add_line(&mut r, q);
    let mut m: Vec<(String, TextStyle)> = Vec::new();
    add_span(&mut m, with_colon(text(l, "mode", "mode")), TextStyle::Highlight);
    add_str(&mut m, state.mode.as_str(), TextStyle::Plain);
    add_str(&mut m, "  ", TextStyle::Plain);
    add_span(&mut m, with_colon(text(l, "ui", "ui")), TextStyle::Highlight);
    let mut counts = String::new();
    push_u64(&mut counts, state.visible_count as u64);
    push_str(&mut counts, " ");
    push_str(&mut counts, text(l, "visibles", "visible"));
    push_str(&mut counts, " / ");
    push_u64(&mut counts, state.indexed_only_count as u64);
    push_str(&mut counts, " ");
    push_str(&mut counts, text(l, "indexes", "indexed"));
    add_span(&mut m, counts, TextStyle::Plain);
    add_line(&mut r, m);
    add_line(&mut r, Vec::new());
    let ghost head = line_views(r@);
    let room: usize = if height < 3 {
        0
    } else {
        (height - 3) as usize
    };
    let rows: usize = if state.hits.len() < room {
        state.hits.len()
    } else {
        room
    };
    let mut i: usize = 0;
    while i < rows
        invariant
            i <= rows,
            rows <= state.hits@.len(),
            line_views(r@) == head + hit_lines(state.hits@, state.selected, i as nat),
        decreases rows - i,
    {
        let h = &state.hits[i];
        let selected = i == state.selected;
        let style = if selected {
            TextStyle::Highlight
        } else {
            TextStyle::Muted
        };
        let mut first = String::new();
        if selected {
            push_str(&mut first, ">");
        } else {
            push_str(&mut first, " ");
        }
        push_str(&mut first, " ");
        push_str(&mut first, h.entry.panel);
        push_str(&mut first, " ");
        let mut a: Vec<(String, TextStyle)> = Vec::new();
        add_span(&mut a, first, style);
        add_str(&mut a, h.entry.title, style);
        add_str(&mut a, " ", TextStyle::Plain);
        add_str(&mut a, h.entry.category, TextStyle::Highlight);
        add_str(&mut a, " ", TextStyle::Plain);
        add_span(&mut a, status_text(h.entry.status, h.entry.ui_visibility), TextStyle::Muted);
        let mut b: Vec<(String, TextStyle)> = Vec::new();
        add_str(&mut b, h.entry.summary, TextStyle::Plain);
        add_line(&mut r, a);
        add_line(&mut r, b);
        assert(hit_lines(state.hits@, state.selected, (i + 1) as nat) =~~= hit_lines(
            state.hits@,
            state.selected,
            i as nat,
        ) + hit_rows(state.hits@[i as int], selected));
        assert(line_views(r@) =~~= head + hit_lines(state.hits@, state.selected, (i + 1) as nat));
        i += 1;
    }
    assert(line_views(r@) =~~= reference_panel_spec(*state, width, height));
    r
}


// ─── Laws ───────────────────────────────────────────────────────────────────
/// The header's lines fill exactly the rows that the layout gives the
/// header at that width.
pub proof fn law_header_fills_its_rows(
    s: DashboardState,
    hostname: Seq<char>,
    os: Seq<char>,
    uptime: Seq<char>,
    ts: Seq<char>,
    query: Seq<char>,
    width: u16,
)
    ensures
        header_spec(s, hostname, os, uptime, ts, query, width).len() == header_rows(width) as int,
{
}

/// The footer's lines fill exactly the rows that the layout gives the
/// footer at that width.
pub proof fn law_footer_fills_its_rows(
    s: DashboardState,
    alerts: nat,
    warnings: nat,
    criticals: nat,
    reference: ReferenceUiState,
    version: Seq<char>,
    width: u16,
)
    ensures
        footer_spec(s, alerts, warnings, criticals, reference, version, width).len() == footer_rows(width) as int,
{
}


// ─── Monitoring area ────────────────────────────────────────────────────────
/// The panels of the left stack, top to bottom.
pub open spec fn left_stack() -> Seq<Panel> {
    seq![Panel::System, Panel::Cpu, Panel::Memory, Panel::Linux]
}

/// The panels of the right stack, top to bottom.
pub open spec fn right_stack() -> Seq<Panel> {
    seq![Panel::Disk, Panel::Network, Panel::Alerts]
}

/// What the monitoring area shows.
pub enum MonitoringLayout {
    /// The analysis of a specialist view.
    Specialist(SpecialistView),
    /// The shown panels of the left stack and of the right stack, in order,
    /// and whether the process table shows below them.
    Panels(Vec<Panel>, Vec<Panel>, bool),
    /// Every panel is hidden: a hint on how to show them.
    AllHidden(&'static str),
}

/// The hint shown when every panel is hidden.
pub open spec fn all_hidden_spec(locale: Locale) -> &'static str {
    text_spec(
        locale,
        "Tous les panneaux sont caches. Basculer avec s/c/m/l/d/n/a/p.",
        "All panels hidden. Toggle with s/c/m/l/d/n/a/p.",
    )
}

/// What the monitoring area shows: the specialist view's analysis when one
/// is on; else the shown panels of each stack and the process table; else,
/// when no panel shows, the hint.
pub fn monitoring_layout(s: &DashboardState) -> (r: MonitoringLayout)
    ensures
        match r {
            MonitoringLayout::Specialist(v) => s.specialist_view != SpecialistView::Off && v == s.specialist_view,
            MonitoringLayout::Panels(left, right, process) => {
                &&& s.specialist_view == SpecialistView::Off
                &&& left@ == left_stack().filter(|p: Panel| s.visibility.shows(p))
                &&& right@ == right_stack().filter(|p: Panel| s.visibility.shows(p))
                &&& process == s.visibility.process
                &&& (left@.len() > 0 || right@.len() > 0 || process)
            },
            MonitoringLayout::AllHidden(t) => {
                &&& s.specialist_view == SpecialistView::Off
                &&& left_stack().filter(|p: Panel| s.visibility.shows(p)).len() == 0
                &&& right_stack().filter(|p: Panel| s.visibility.shows(p)).len() == 0
                &&& !s.visibility.process
                &&& t == all_hidden_spec(s.locale)
            },
        },
{
    match s.specialist_view {
        SpecialistView::Off => {},
        v => return MonitoringLayout::Specialist(v),
    }
    let lp: Vec<Panel> = vec![Panel::System, Panel::Cpu, Panel::Memory, Panel::Linux];
    let rp: Vec<Panel> = vec![Panel::Disk, Panel::Network, Panel::Alerts];
    assert(lp@ =~= left_stack());
    assert(rp@ =~= right_stack());
    let left = s.visible_panels(&lp);
    let right = s.visible_panels(&rp);
    let process = s.visibility.process;
    if left.len() == 0 && right.len() == 0 && !process {
        MonitoringLayout::AllHidden(
            text(
                s.locale,
                "Tous les panneaux sont caches. Basculer avec s/c/m/l/d/n/a/p.",
                "All panels hidden. Toggle with s/c/m/l/d/n/a/p.",
            ),
        )
    } else {
        MonitoringLayout::Panels(left, right, process)
    }
}


// ─── Network analysis ───────────────────────────────────────────────────────
pub open spec fn rx_kb_sum(s: Seq<NetFigures>) -> nat
    decreases s.len(),
{
    if s.len() == 0 {
        0
    } else {
        rx_kb_sum(s.drop_last()) + (s.last().rx_bytes_sec / 1024) as nat
    }
}

pub open spec fn tx_kb_sum(s: Seq<NetFigures>) -> nat
    decreases s.len(),
{
    if s.len() == 0 {
        0
    } else {
        tx_kb_sum(s.drop_last()) + (s.last().tx_bytes_sec / 1024) as nat
    }
}

pub open spec fn error_sum(s: Seq<NetFigures>) -> nat
    decreases s.len(),
{
    if s.len() == 0 {
        0
    } else {
        error_sum(s.drop_last()) + s.last().rx_errors as nat + s.last().tx_errors as nat
    }
}

pub open spec fn drop_sum(s: Seq<NetFigures>) -> nat
    decreases s.len(),
{
    if s.len() == 0 {
        0
    } else {
        drop_sum(s.drop_last()) + s.last().rx_dropped as nat + s.last().tx_dropped as nat
    }
}

/// The traffic of an interface: received and sent bytes per second.
pub open spec fn traffic(n: NetFigures) -> nat {
    n.rx_bytes_sec as nat + n.tx_bytes_sec as nat
}

/// The interface with the most traffic (the last of equals).
pub open spec fn hottest(s: Seq<NetFigures>) -> Option<int>
    decreases s.len(),
{
    if s.len() == 0 {
        None
    } else {
        match hottest(s.drop_last()) {
            None => Some(s.len() - 1),
            Some(i) => if traffic(s.last()) >= traffic(s[i]) {
                Some(s.len() - 1)
            } else {
                Some(i)
            },
        }
    }
}

/// The figures of the analysis fit their integers.
pub open spec fn analysis_fits(s: Seq<NetFigures>) -> bool {
    &&& forall|k: int| 0 <= k < s.len() ==> traffic(#[trigger] s[k]) <= u64::MAX
    &&& forall|k: int| 0 <= k <= s.len() ==> rx_kb_sum(#[trigger] s.take(k)) <= u64::MAX
    &&& forall|k: int| 0 <= k <= s.len() ==> tx_kb_sum(#[trigger] s.take(k)) <= u64::MAX
    &&& forall|k: int| 0 <= k <= s.len() ==> error_sum(#[trigger] s.take(k)) <= u64::MAX
    &&& forall|k: int| 0 <= k <= s.len() ==> drop_sum(#[trigger] s.take(k)) <= u64::MAX
    &&& error_sum(s) + drop_sum(s) <= u64::MAX
}

/// The network analysis: the traffic in KB/s, the errors and drops (in the
/// alert style when there are any); then the busiest interface and the
/// connection states of the first interface.
pub open spec fn network_analysis_spec(s: Seq<NetFigures>, locale: Locale) -> Seq<Seq<(Seq<char>, TextStyle)>> {
    let e = error_sum(s);
    let d = drop_sum(s);
    seq![
        seq![
            ("rx "@ + decimal(rx_kb_sum(s)) + " KB/s  tx "@ + decimal(tx_kb_sum(s)) + " KB/s  "@, TextStyle::Plain),
            (
                text_spec(locale, "erreurs", "errors")@ + " "@ + decimal(e) + " / "@ + text_spec(locale, "pertes", "drops")@
                    + " "@ + decimal(d),
                if e + d > 0 {
                    TextStyle::Alert
                } else {
                    TextStyle::Muted
                },
            ),
        ],
        seq![
            (
                "hot iface "@ + match hottest(s) {
                    Some(i) => s[i].interface@,
                    None => "-"@,
                } + "  est "@ + decimal(if s.len() > 0 { s[0].connections_established as nat } else { 0 })
                    + "  listen "@ + decimal(if s.len() > 0 { s[0].tcp_listen as nat } else { 0 }) + "  tw "@
                    + decimal(if s.len() > 0 { s[0].tcp_time_wait as nat } else { 0 }) + "  retrans "@
                    + decimal(if s.len() > 0 { s[0].retrans_segs as nat } else { 0 }),
                TextStyle::Plain,
            ),
        ],
    ]
}

/// The lines of the network analysis.
pub fn network_analysis_lines(nets: &Vec<NetFigures>, locale: Locale) -> (r: Vec<Vec<(String, TextStyle)>>)
    requires
        analysis_fits(nets@),
    ensures
        line_views(r@) == network_analysis_spec(nets@, locale),
{
    let ghost s = nets@;
    let mut rx: u64 = 0;
    let mut tx: u64 = 0;
    let mut errors: u64 = 0;
    let mut drops: u64 = 0;
    let mut hot: Option<usize> = None;
    let mut i: usize = 0;
    assert(s.take(0) =~= Seq::<NetFigures>::empty());
    while i < nets.len()
        invariant
            i <= nets.len(),
            s == nets@,
            analysis_fits(s),
            rx == rx_kb_sum(s.take(i as int)),
            tx == tx_kb_sum(s.take(i as int)),
            errors == error_sum(s.take(i as int)),
            drops == drop_sum(s.take(i as int)),
            match hot {
                Some(h) => hottest(s.take(i as int)) == Some(h as int) && h < i,
                None => hottest(s.take(i as int)) is None,
            },
        decreases nets.len() - i,
    {
        let ghost t = s.take(i + 1);
        assert(t.drop_last() =~= s.take(i as int));
        assert(t.last() == s[i as int]);
        assert(rx_kb_sum(s.take(i + 1)) <= u64::MAX);
        assert(tx_kb_sum(s.take(i + 1)) <= u64::MAX);
        assert(error_sum(s.take(i + 1)) <= u64::MAX);
        assert(drop_sum(s.take(i + 1)) <= u64::MAX);
        let n = &nets[i];
        rx = rx + n.rx_bytes_sec / 1024;
        tx = tx + n.tx_bytes_sec / 1024;
        errors = errors + n.rx_errors + n.tx_errors;
        drops = drops + n.rx_dropped + n.tx_dropped;
        assert(traffic(s[i as int]) <= u64::MAX);
        hot = match hot {
            None => Some(i),
            Some(h) => {
                assert(t[h as int] == s[h as int]);
                assert(traffic(s[h as int]) <= u64::MAX);
                if n.rx_bytes_sec + n.tx_bytes_sec >= nets[h].rx_bytes_sec + nets[h].tx_bytes_sec {
                    Some(i)
                } else {
                    Some(h)
                }
            },
        };
        i += 1;
    }
    assert(s.take(nets.len() as int) =~= s);
    let mut first = String::new();
    push_str(&mut first, "rx ");
    push_u64(&mut first, rx);
    push_str(&mut first, " KB/s  tx ");
    push_u64(&mut first, tx);
    push_str(&mut first, " KB/s  ");
    let mut second = String::new();
    push_str(&mut second, text(locale, "erreurs", "errors"));
    push_str(&mut second, " ");
    push_u64(&mut second, errors);
    push_str(&mut second, " / ");
    push_str(&mut second, text(locale, "pertes", "drops"));
    push_str(&mut second, " ");
    push_u64(&mut second, drops);
    let style = if errors + drops > 0 {
        TextStyle::Alert
    } else {
        TextStyle::Muted
    };
    let mut a: Vec<(String, TextStyle)> = Vec::new();
    add_span(&mut a, first, TextStyle::Plain);
    add_span(&mut a, second, style);
    let mut hot_line = String::new();
    push_str(&mut hot_line, "hot iface ");
    match hot {
        Some(h) => push_str(&mut hot_line, nets[h].interface.as_str()),
        None => push_str(&mut hot_line, "-"),
    }
    let (est, listen, tw, retrans): (u64, u64, u64, u64) = if nets.len() > 0 {
        (
            nets[0].connections_established as u64,
            nets[0].tcp_listen as u64,
            nets[0].tcp_time_wait as u64,
            nets[0].retrans_segs,
        )
    } else {
        (0, 0, 0, 0)
    };
    push_str(&mut hot_line, "  est ");
    push_u64(&mut hot_line, est);
    push_str(&mut hot_line, "  listen ");
    push_u64(&mut hot_line, listen);
    push_str(&mut hot_line, "  tw ");
    push_u64(&mut hot_line, tw);
    push_str(&mut hot_line, "  retrans ");
    push_u64(&mut hot_line, retrans);
    let mut b: Vec<(String, TextStyle)> = Vec::new();
    add_span(&mut b, hot_line, TextStyle::Plain);
    let mut r: Vec<Vec<(String, TextStyle)>> = Vec::new();
    add_line(&mut r, a);
    add_line(&mut r, b);
    assert(line_views(r@) =~~= network_analysis_spec(nets@, locale));
    r
}

} // verus!
