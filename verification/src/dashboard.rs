//! The state of the terminal dashboard and the decisions taken on it:
//! which panels show, in which operator mode, which specialist view, which
//! theme and language, and what the header and footer say. Drawing belongs
//! to the front end.
use vstd::prelude::*;
use crate::collectors::{AlertLevel, LogEntry};
use crate::reference::{
    EntryModel, Locale, ReferenceEntry, SearchHit, UiVisibility, hits_are, model_of, models,
    nat_scores, normalize_spec, rank_entries, ranked_by, search, search_spec,
};
use crate::reference_catalog::{catalog, catalog_spec};
use crate::text::{
    chars_of, contains, contains_exec, decimal, digit_char, digit_char_exec, push_char, push_str, push_u64, str_eq,
};
use crate::theme::{next_name, next_spec, normalize_name};

verus! {

broadcast use vstd::string::group_string_axioms;

/// `fr` in French, `en` in English.
pub open spec fn text_spec(locale: Locale, fr: &'static str, en: &'static str) -> &'static str {
    match locale {
        Locale::Fr => fr,
        Locale::En => en,
    }
}

/// The text of a message in `locale`.
pub fn text(locale: Locale, fr: &'static str, en: &'static str) -> (r: &'static str)
    ensures
        r == text_spec(locale, fr, en),
{
    match locale {
        Locale::Fr => fr,
        Locale::En => en,
    }
}

/// Whether `s` is one of `opts`.
pub open spec fn one_of(s: Seq<char>, opts: Seq<&'static str>) -> bool {
    exists|i: int| 0 <= i < opts.len() && s == (#[trigger] opts[i])@
}

fn is_one_of(s: &str, opts: Vec<&'static str>) -> (r: bool)
    ensures
        r == one_of(s@, opts@),
{
    let mut i: usize = 0;
    while i < opts.len()
        invariant
            i <= opts.len(),
            forall|k: int| 0 <= k < i ==> s@ != (#[trigger] opts@[k])@,
        decreases opts.len() - i,
    {
        if str_eq(s, opts[i]) {
            return true;
        }
        i += 1;
    }
    false
}

fn is_one_of_single(s: &str, opt: &'static str) -> (r: bool)
    ensures
        r == one_of(s@, seq![opt]),
{
    let r = str_eq(s, opt);
    assert(seq![opt][0] == opt);
    r
}

// ─── Panels ─────────────────────────────────────────────────────────────────
#[derive(Debug, Clone, Copy, PartialEq, Eq, Structural)]
pub enum Panel {
    System,
    Cpu,
    Memory,
    Linux,
    Disk,
    Network,
    Alerts,
    Process,
}

/// Which panels show.
#[derive(Debug, Clone, Copy, PartialEq, Eq, Structural)]
pub struct PanelVisibility {
    pub system: bool,
    pub cpu: bool,
    pub memory: bool,
    pub linux: bool,
    pub disk: bool,
    pub network: bool,
    pub alerts: bool,
    pub process: bool,
}

pub open spec fn all_visible() -> PanelVisibility {
    PanelVisibility {
        system: true,
        cpu: true,
        memory: true,
        linux: true,
        disk: true,
        network: true,
        alerts: true,
        process: true,
    }
}

pub open spec fn b2n(b: bool) -> nat {
    if b {
        1
    } else {
        0
    }
}

impl Default for PanelVisibility {
    /// Every panel shows.
    fn default() -> (r: Self)
        ensures
            r == all_visible(),
    {
        PanelVisibility {
            system: true,
            cpu: true,
            memory: true,
            linux: true,
            disk: true,
            network: true,
            alerts: true,
            process: true,
        }
    }
}

impl PanelVisibility {
    pub open spec fn shows(self, panel: Panel) -> bool {
        match panel {
            Panel::System => self.system,
            Panel::Cpu => self.cpu,
            Panel::Memory => self.memory,
            Panel::Linux => self.linux,
            Panel::Disk => self.disk,
            Panel::Network => self.network,
            Panel::Alerts => self.alerts,
            Panel::Process => self.process,
        }
    }

    /// `self` with `panel` flipped.
    pub open spec fn toggled(self, panel: Panel) -> PanelVisibility {
        PanelVisibility {
            system: if panel == Panel::System {
                !self.system
            } else {
                self.system
            },
            cpu: if panel == Panel::Cpu {
                !self.cpu
            } else {
                self.cpu
            },
            memory: if panel == Panel::Memory {
                !self.memory
            } else {
                self.memory
            },
            linux: if panel == Panel::Linux {
                !self.linux
            } else {
                self.linux
            },
            disk: if panel == Panel::Disk {
                !self.disk
            } else {
                self.disk
            },
            network: if panel == Panel::Network {
                !self.network
            } else {
                self.network
            },
            alerts: if panel == Panel::Alerts {
                !self.alerts
            } else {
                self.alerts
            },
            process: if panel == Panel::Process {
                !self.process
            } else {
                self.process
            },
        }
    }

    pub open spec fn count_spec(self) -> nat {
        b2n(self.system) + b2n(self.cpu) + b2n(self.memory) + b2n(self.linux) + b2n(self.disk)
            + b2n(self.network) + b2n(self.alerts) + b2n(self.process)
    }

    /// Shows `panel` if it was hidden, hides it if it showed.
    pub fn toggle(&mut self, panel: Panel)
        ensures
            *final(self) == old(self).toggled(panel),
    {
        match panel {
            Panel::System => self.system = !self.system,
            Panel::Cpu => self.cpu = !self.cpu,
            Panel::Memory => self.memory = !self.memory,
            Panel::Linux => self.linux = !self.linux,
            Panel::Disk => self.disk = !self.disk,
            Panel::Network => self.network = !self.network,
            Panel::Alerts => self.alerts = !self.alerts,
            Panel::Process => self.process = !self.process,
        }
    }

    pub fn is_visible(&self, panel: Panel) -> (r: bool)
        ensures
            r == self.shows(panel),
    {
        match panel {
            Panel::System => self.system,
            Panel::Cpu => self.cpu,
            Panel::Memory => self.memory,
            Panel::Linux => self.linux,
            Panel::Disk => self.disk,
            Panel::Network => self.network,
            Panel::Alerts => self.alerts,
            Panel::Process => self.process,
        }
    }

    /// How many of the eight panels show.
    pub fn visible_count(&self) -> (r: usize)
        ensures
            r == self.count_spec(),
            r <= 8,
    {
        let flags = [
            self.system,
            self.cpu,
            self.memory,
            self.linux,
            self.disk,
            self.network,
            self.alerts,
            self.process,
        ];
        let mut n: usize = 0;
        let mut i: usize = 0;
        while i < 8
            invariant
                i <= 8,
                n <= i,
                flags@ == seq![
                    self.system,
                    self.cpu,
                    self.memory,
                    self.linux,
                    self.disk,
                    self.network,
                    self.alerts,
                    self.process,
                ],
                n == (if i > 0 { b2n(flags@[0]) } else { 0 }) + (if i > 1 { b2n(flags@[1]) } else {
                    0
                }) + (if i > 2 { b2n(flags@[2]) } else { 0 }) + (if i > 3 { b2n(flags@[3]) } else {
                    0
                }) + (if i > 4 { b2n(flags@[4]) } else { 0 }) + (if i > 5 { b2n(flags@[5]) } else {
                    0
                }) + (if i > 6 { b2n(flags@[6]) } else { 0 }) + (if i > 7 { b2n(flags@[7]) } else {
                    0
                }),
            decreases 8 - i,
        {
            if flags[i] {
                n += 1;
            }
            i += 1;
        }
        n
    }
}

/// Toggling a panel twice gives the visibility back; once, it flips that
/// panel.
pub proof fn law_toggle_twice(v: PanelVisibility, panel: Panel)
    ensures
        v.toggled(panel).toggled(panel) == v,
        v.toggled(panel).shows(panel) != v.shows(panel),
{
    let t = v.toggled(panel);
    let tt = t.toggled(panel);
    assert(tt.system == v.system);
    assert(tt.cpu == v.cpu);
    assert(tt.memory == v.memory);
    assert(tt.linux == v.linux);
    assert(tt.disk == v.disk);
    assert(tt.network == v.network);
    assert(tt.alerts == v.alerts);
    assert(tt.process == v.process);
}

/// Toggling a panel changes the count of shown panels by one.
pub proof fn law_toggle_count(v: PanelVisibility, panel: Panel)
    ensures
        v.toggled(panel).count_spec() + b2n(v.shows(panel)) == v.count_spec() + b2n(
            !v.shows(panel),
        ),
{
    let t = v.toggled(panel);
    match panel {
        Panel::System => {
            assert(t.system == !v.system);
        },
        Panel::Cpu => {
            assert(t.cpu == !v.cpu);
        },
        Panel::Memory => {
            assert(t.memory == !v.memory);
        },
        Panel::Linux => {
            assert(t.linux == !v.linux);
        },
        Panel::Disk => {
            assert(t.disk == !v.disk);
        },
        Panel::Network => {
            assert(t.network == !v.network);
        },
        Panel::Alerts => {
            assert(t.alerts == !v.alerts);
        },
        Panel::Process => {
            assert(t.process == !v.process);
        },
    }
}

/// The key of a panel in the technical reference.
pub open spec fn panel_key_spec(panel: Panel) -> &'static str {
    match panel {
        Panel::System => "system",
        Panel::Cpu => "cpu",
        Panel::Memory => "memory",
        Panel::Linux => "linux",
        Panel::Disk => "disk",
        Panel::Network => "network",
        Panel::Alerts => "alerts",
        Panel::Process => "process",
    }
}

pub fn panel_key(panel: Panel) -> (r: &'static str)
    ensures
        r == panel_key_spec(panel),
{
    match panel {
        Panel::System => "system",
        Panel::Cpu => "cpu",
        Panel::Memory => "memory",
        Panel::Linux => "linux",
        Panel::Disk => "disk",
        Panel::Network => "network",
        Panel::Alerts => "alerts",
        Panel::Process => "process",
    }
}

// ─── Operator modes and specialist views ────────────────────────────────────
#[derive(Debug, Clone, Copy, PartialEq, Eq, Structural)]
pub enum OperatorMode {
    Overview,
    Storage,
    Network,
    Process,
    Pressure,
    Full,
}

#[derive(Debug, Clone, Copy, PartialEq, Eq, Structural)]
pub enum DetailLevel {
    Compact,
    Detailed,
}

#[derive(Debug, Clone, Copy, PartialEq, Eq, Structural)]
pub enum SpecialistView {
    Off,
    Pressure,
    Network,
    Jvm,
    DiskPressure,
    DiskInventory,
}

pub open spec fn vis(
    system: bool,
    cpu: bool,
    memory: bool,
    linux: bool,
    disk: bool,
    network: bool,
    alerts: bool,
    process: bool,
) -> PanelVisibility {
    PanelVisibility { system, cpu, memory, linux, disk, network, alerts, process }
}

impl OperatorMode {
    pub open spec fn label_spec(self, locale: Locale) -> &'static str {
        match self {
            OperatorMode::Overview => text_spec(locale, "vue", "overview"),
            OperatorMode::Storage => text_spec(locale, "io", "io"),
            OperatorMode::Network => text_spec(locale, "reseau", "network"),
            OperatorMode::Process => text_spec(locale, "processus", "process"),
            OperatorMode::Pressure => text_spec(locale, "pression", "pressure"),
            OperatorMode::Full => text_spec(locale, "complet", "full"),
        }
    }

    /// The name of the mode in `locale`.
    pub fn label(self, locale: Locale) -> (r: &'static str)
        ensures
            r == self.label_spec(locale),
    {
        match self {
            OperatorMode::Overview => text(locale, "vue", "overview"),
            OperatorMode::Storage => text(locale, "io", "io"),
            OperatorMode::Network => text(locale, "reseau", "network"),
            OperatorMode::Process => text(locale, "processus", "process"),
            OperatorMode::Pressure => text(locale, "pression", "pressure"),
            OperatorMode::Full => text(locale, "complet", "full"),
        }
    }

    pub open spec fn visibility_spec(self) -> PanelVisibility {
        match self {
            OperatorMode::Overview => vis(true, true, true, false, false, false, true, true),
            OperatorMode::Storage => vis(false, false, true, true, true, false, true, true),
            OperatorMode::Network => vis(true, true, false, true, false, true, true, false),
            OperatorMode::Process => vis(true, true, true, false, false, false, true, true),
            OperatorMode::Pressure => vis(false, true, true, true, true, false, true, false),
            OperatorMode::Full => all_visible(),
        }
    }

    /// The panels that the mode shows.
    pub fn visibility(self) -> (r: PanelVisibility)
        ensures
            r == self.visibility_spec(),
    {
        match self {
            OperatorMode::Overview => PanelVisibility {
                system: true,
                cpu: true,
                memory: true,
                linux: false,
                disk: false,
                network: false,
                alerts: true,
                process: true,
            },
            OperatorMode::Storage => PanelVisibility {
                system: false,
                cpu: false,
                memory: true,
                linux: true,
                disk: true,
                network: false,
                alerts: true,
                process: true,
            },
            OperatorMode::Network => PanelVisibility {
                system: true,
                cpu: true,
                memory: false,
                linux: true,
                disk: false,
                network: true,
                alerts: true,
                process: false,
            },
            OperatorMode::Process => PanelVisibility {
                system: true,
                cpu: true,
                memory: true,
                linux: false,
                disk: false,
                network: false,
                alerts: true,
                process: true,
            },
            OperatorMode::Pressure => PanelVisibility {
                system: false,
                cpu: true,
                memory: true,
                linux: true,
                disk: true,
                network: false,
                alerts: true,
                process: false,
            },
            OperatorMode::Full => PanelVisibility::default(),
        }
    }

    /// Whether the mode favors reference entries of `panel` or `category`.
    pub open spec fn prefers(self, panel: Seq<char>, category: Seq<char>) -> bool {
        match self {
            OperatorMode::Overview => one_of(panel, seq!["system", "cpu", "memory", "alerts", "process"]),
            OperatorMode::Storage => one_of(panel, seq!["disk", "linux", "memory", "alerts"]),
            OperatorMode::Network => one_of(panel, seq!["network", "system", "cpu", "linux"]),
            OperatorMode::Process => one_of(panel, seq!["process", "cpu", "memory", "alerts"]),
            OperatorMode::Pressure => one_of(panel, seq!["memory", "linux", "alerts", "disk", "cpu"])
                || one_of(category, seq!["memory", "linux", "disk"]),
            OperatorMode::Full => true,
        }
    }

    pub open spec fn bias_spec(self, panel: Seq<char>, category: Seq<char>, index: usize) -> usize {
        if self.prefers(panel, category) {
            (10000usize).saturating_sub(index)
        } else {
            (1000usize).saturating_sub(index)
        }
    }

    /// Rank bonus of the reference entry at `index` when browsing in this
    /// mode: favored entries first, catalog order inside each group.
    pub fn reference_bias(self, panel: &str, category: &str, index: usize) -> (r: usize)
        ensures
            r == self.bias_spec(panel@, category@, index),
    {
        let preferred = match self {
            OperatorMode::Overview => is_one_of(
                panel,
                vec!["system", "cpu", "memory", "alerts", "process"],
            ),
            OperatorMode::Storage => is_one_of(panel, vec!["disk", "linux", "memory", "alerts"]),
            OperatorMode::Network => is_one_of(panel, vec!["network", "system", "cpu", "linux"]),
            OperatorMode::Process => is_one_of(panel, vec!["process", "cpu", "memory", "alerts"]),
            OperatorMode::Pressure => is_one_of(
                panel,
                vec!["memory", "linux", "alerts", "disk", "cpu"],
            ) || is_one_of(category, vec!["memory", "linux", "disk"]),
            OperatorMode::Full => true,
        };
        if preferred {
            10000usize.saturating_sub(index)
        } else {
            1000usize.saturating_sub(index)
        }
    }
}

impl SpecialistView {
    pub open spec fn label_spec(self, locale: Locale) -> &'static str {
        match self {
            SpecialistView::Off => text_spec(locale, "aucun", "none"),
            SpecialistView::Pressure => text_spec(locale, "pression+", "pressure+"),
            SpecialistView::Network => text_spec(locale, "reseau+", "network+"),
            SpecialistView::Jvm => text_spec(locale, "jvm+", "jvm+"),
            SpecialistView::DiskPressure => text_spec(locale, "disque+", "disk+"),
            SpecialistView::DiskInventory => text_spec(locale, "inventaire+", "inventory+"),
        }
    }

    /// The name of the view in `locale`.
    pub fn label(self, locale: Locale) -> (r: &'static str)
        ensures
            r == self.label_spec(locale),
    {
        match self {
            SpecialistView::Off => text(locale, "aucun", "none"),
            SpecialistView::Pressure => text(locale, "pression+", "pressure+"),
            SpecialistView::Network => text(locale, "reseau+", "network+"),
            SpecialistView::Jvm => text(locale, "jvm+", "jvm+"),
            SpecialistView::DiskPressure => text(locale, "disque+", "disk+"),
            SpecialistView::DiskInventory => text(locale, "inventaire+", "inventory+"),
        }
    }

    /// Whether some word of `words` occurs in `id`.
    pub open spec fn id_has(id: Seq<char>, words: Seq<&'static str>) -> bool {
        exists|i: int| 0 <= i < words.len() && contains(id, (#[trigger] words[i])@)
    }

    /// Whether the view favors an entry by its panel, category or id.
    pub open spec fn prefers(self, panel: Seq<char>, category: Seq<char>, id: Seq<char>) -> bool {
        match self {
            SpecialistView::Off => false,
            SpecialistView::Pressure => one_of(panel, seq!["memory", "linux", "disk", "alerts"])
                || one_of(category, seq!["memory", "linux", "disk"]) || Self::id_has(
                id,
                seq!["pressure", "psi"],
            ),
            SpecialistView::Network => one_of(panel, seq!["network", "alerts"]) || one_of(
                category,
                seq!["network"],
            ) || Self::id_has(id, seq!["tcp", "udp"]),
            SpecialistView::Jvm => one_of(panel, seq!["process", "cpu", "memory"]) || one_of(
                category,
                seq!["process"],
            ) || Self::id_has(id, seq!["jvm", "thread"]),
            SpecialistView::DiskPressure => one_of(panel, seq!["disk", "process", "linux", "alerts"])
                || one_of(category, seq!["disk", "process"]) || Self::id_has(
                id,
                seq!["await", "queue", "latency"],
            ),
            SpecialistView::DiskInventory => one_of(panel, seq!["disk", "system"]) || one_of(
                category,
                seq!["disk"],
            ) || Self::id_has(id, seq!["filesystem", "inventory", "parent", "reference", "stack"]),
        }
    }

    pub open spec fn bias_spec(
        self,
        panel: Seq<char>,
        category: Seq<char>,
        id: Seq<char>,
        index: usize,
    ) -> usize {
        if self.prefers(panel, category, id) {
            (20000usize).saturating_sub(index)
        } else {
            0
        }
    }

    fn id_has_exec(id: &str, words: Vec<&'static str>) -> (r: bool)
        ensures
            r == Self::id_has(id@, words@),
    {
        let idv = chars_of(id);
        let mut i: usize = 0;
        while i < words.len()
            invariant
                i <= words.len(),
                idv@ == id@,
                forall|k: int| 0 <= k < i ==> !contains(id@, (#[trigger] words@[k])@),
            decreases words.len() - i,
        {
            if contains_exec(&idv, &chars_of(words[i])) {
                return true;
            }
            i += 1;
        }
        false
    }

    /// Rank bonus of the reference entry at `index` under this view.
    #[verifier::rlimit(50)]
    pub fn reference_bias(self, panel: &str, category: &str, id: &str, index: usize) -> (r: usize)
        ensures
            r == self.bias_spec(panel@, category@, id@, index),
    {
        let preferred = match self {
            SpecialistView::Off => false,
            SpecialistView::Pressure => {
                let a = is_one_of(panel, vec!["memory", "linux", "disk", "alerts"]);
                let b = is_one_of(category, vec!["memory", "linux", "disk"]);
                let c = Self::id_has_exec(id, vec!["pressure", "psi"]);
                a || b || c
            },
            SpecialistView::Network => {
                let a = is_one_of(panel, vec!["network", "alerts"]);
                let b = is_one_of_single(category, "network");
                let c = Self::id_has_exec(id, vec!["tcp", "udp"]);
                a || b || c
            },
            SpecialistView::Jvm => {
                let a = is_one_of(panel, vec!["process", "cpu", "memory"]);
                let b = is_one_of_single(category, "process");
                let c = Self::id_has_exec(id, vec!["jvm", "thread"]);
                a || b || c
            },
            SpecialistView::DiskPressure => {
                let a = is_one_of(panel, vec!["disk", "process", "linux", "alerts"]);
                let b = is_one_of(category, vec!["disk", "process"]);
                let c = Self::id_has_exec(id, vec!["await", "queue", "latency"]);
                a || b || c
            },
            SpecialistView::DiskInventory => {
                let a = is_one_of(panel, vec!["disk", "system"]);
                let b = is_one_of_single(category, "disk");
                let c = Self::id_has_exec(
                    id,
                    vec!["filesystem", "inventory", "parent", "reference", "stack"],
                );
                a || b || c
            },
        };
        if preferred {
            20000usize.saturating_sub(index)
        } else {
            0
        }
    }

    /// The operator mode that the view switches to; `Off` keeps `current`.
    pub open spec fn mode_spec(self, current: OperatorMode) -> OperatorMode {
        match self {
            SpecialistView::Off => current,
            SpecialistView::Pressure => OperatorMode::Pressure,
            SpecialistView::Network => OperatorMode::Network,
            SpecialistView::Jvm => OperatorMode::Process,
            SpecialistView::DiskPressure => OperatorMode::Storage,
            SpecialistView::DiskInventory => OperatorMode::Storage,
        }
    }
}

impl DetailLevel {
    pub open spec fn label_spec(self, locale: Locale) -> &'static str {
        match self {
            DetailLevel::Compact => text_spec(locale, "compact", "compact"),
            DetailLevel::Detailed => text_spec(locale, "detail", "detailed"),
        }
    }

    pub fn label(self, locale: Locale) -> (r: &'static str)
        ensures
            r == self.label_spec(locale),
    {
        match self {
            DetailLevel::Compact => text(locale, "compact", "compact"),
            DetailLevel::Detailed => text(locale, "detail", "detailed"),
        }
    }

    pub open spec fn other(self) -> DetailLevel {
        match self {
            DetailLevel::Compact => DetailLevel::Detailed,
            DetailLevel::Detailed => DetailLevel::Compact,
        }
    }
}

/// State of the reference side panel.
#[derive(Debug, Clone, Default)]
pub struct ReferenceUiState {
    pub visible: bool,
    pub input_active: bool,
    pub query: String,
    pub selected: usize,
}

/// What the log panel shows.
pub struct LogWidgetState<'a> {
    pub locale: Locale,
    pub targets: &'a [String],
    pub query: &'a str,
    pub input_active: bool,
    pub entries: &'a [LogEntry],
    pub error: Option<&'a str>,
}

/// What the reference panel shows.
pub struct ReferenceWidgetState<'a> {
    pub query: &'a str,
    pub mode: String,
    pub locale: Locale,
    pub visible_count: usize,
    pub indexed_only_count: usize,
    pub hits: &'a [SearchHit],
    pub selected: usize,
}

// ─── Keys ───────────────────────────────────────────────────────────────────
/// What the program does after a key press.
#[derive(Debug, Clone, Copy, PartialEq, Eq, Structural)]
pub enum KeyOutcome {
    Quit,
    Redraw,
    Nothing,
}

/// The panel that a key shows or hides, in either case.
pub open spec fn key_panel_spec(key: char) -> Option<Panel> {
    if key == 'c' || key == 'C' {
        Some(Panel::Cpu)
    } else if key == 'm' || key == 'M' {
        Some(Panel::Memory)
    } else if key == 'l' || key == 'L' {
        Some(Panel::Linux)
    } else if key == 'd' || key == 'D' {
        Some(Panel::Disk)
    } else if key == 'n' || key == 'N' {
        Some(Panel::Network)
    } else if key == 'a' || key == 'A' {
        Some(Panel::Alerts)
    } else if key == 'p' || key == 'P' {
        Some(Panel::Process)
    } else {
        None
    }
}

/// `q` quits; `r`, `t` and the panel keys redraw; other keys do nothing.
pub open spec fn key_outcome_spec(key: char) -> KeyOutcome {
    if key == 'q' || key == 'Q' {
        KeyOutcome::Quit
    } else if key == 'r' || key == 'R' || key == 't' || key == 'T' || key_panel_spec(key) is Some {
        KeyOutcome::Redraw
    } else {
        KeyOutcome::Nothing
    }
}

// ─── Dashboard state ────────────────────────────────────────────────────────
/// The state after a key press: `t` moves to the next theme, a panel key
/// shows or hides its panel, any other key leaves the state as it is.
pub open spec fn key_step_spec(s: DashboardState, key: char) -> DashboardState {
    if key == 't' || key == 'T' {
        DashboardState { theme_name: next_spec(s.theme_name@), ..s }
    } else {
        match key_panel_spec(key) {
            Some(p) => DashboardState { visibility: s.visibility.toggled(p), ..s },
            None => s,
        }
    }
}

/// Pressing a panel key twice leaves the dashboard as it was.
pub proof fn law_panel_key_twice(s: DashboardState, key: char)
    requires
        key_panel_spec(key) is Some,
    ensures
        key_step_spec(key_step_spec(s, key), key) == s,
{
    let p = key_panel_spec(key)->0;
    law_toggle_twice(s.visibility, p);
}

/// Everything the dashboard remembers between two frames.
pub struct DashboardState {
    pub theme_name: &'static str,
    pub locale: Locale,
    pub visibility: PanelVisibility,
    pub operator_mode: OperatorMode,
    pub detail_level: DetailLevel,
    pub specialist_view: SpecialistView,
}

impl DashboardState {
    /// Every panel, full mode, detailed, no specialist view, with the named
    /// theme (unknown names give `dark`).
    pub fn new(theme_name: &str, locale: Locale) -> (r: Self)
        ensures
            r.theme_name == crate::theme::normalize_spec(theme_name@),
            r.locale == locale,
            r.visibility == all_visible(),
            r.operator_mode == OperatorMode::Full,
            r.detail_level == DetailLevel::Detailed,
            r.specialist_view == SpecialistView::Off,
    {
        DashboardState {
            theme_name: normalize_name(theme_name),
            locale,
            visibility: PanelVisibility::default(),
            operator_mode: OperatorMode::Full,
            detail_level: DetailLevel::Detailed,
            specialist_view: SpecialistView::Off,
        }
    }

    /// Moves to the next theme.
    pub fn cycle_theme(&mut self)
        ensures
            final(self).theme_name == next_spec(old(self).theme_name@),
            final(self).locale == old(self).locale,
            final(self).visibility == old(self).visibility,
            final(self).operator_mode == old(self).operator_mode,
            final(self).detail_level == old(self).detail_level,
            final(self).specialist_view == old(self).specialist_view,
    {
        self.theme_name = next_name(self.theme_name);
    }

    /// Shows or hides one panel.
    pub fn toggle_panel(&mut self, panel: Panel)
        ensures
            final(self).visibility == old(self).visibility.toggled(panel),
            final(self).theme_name == old(self).theme_name,
            final(self).locale == old(self).locale,
            final(self).operator_mode == old(self).operator_mode,
            final(self).detail_level == old(self).detail_level,
            final(self).specialist_view == old(self).specialist_view,
    {
        self.visibility.toggle(panel);
    }

    /// Switches the language.
    pub fn cycle_locale(&mut self)
        ensures
            final(self).locale == old(self).locale.next_spec(),
            final(self).theme_name == old(self).theme_name,
            final(self).visibility == old(self).visibility,
            final(self).operator_mode == old(self).operator_mode,
            final(self).detail_level == old(self).detail_level,
            final(self).specialist_view == old(self).specialist_view,
    {
        self.locale = self.locale.next();
    }

    /// Switches between compact and detailed.
    pub fn toggle_detail(&mut self)
        ensures
            final(self).detail_level == old(self).detail_level.other(),
            final(self).theme_name == old(self).theme_name,
            final(self).locale == old(self).locale,
            final(self).visibility == old(self).visibility,
            final(self).operator_mode == old(self).operator_mode,
            final(self).specialist_view == old(self).specialist_view,
    {
        self.detail_level = match self.detail_level {
            DetailLevel::Compact => DetailLevel::Detailed,
            DetailLevel::Detailed => DetailLevel::Compact,
        };
    }

    /// Enters an operator mode: its panels show, the specialist view ends.
    pub fn set_operator_mode(&mut self, mode: OperatorMode)
        ensures
            final(self).operator_mode == mode,
            final(self).visibility == mode.visibility_spec(),
            final(self).specialist_view == SpecialistView::Off,
            final(self).theme_name == old(self).theme_name,
            final(self).locale == old(self).locale,
            final(self).detail_level == old(self).detail_level,
    {
        self.specialist_view = SpecialistView::Off;
        self.operator_mode = mode;
        self.visibility = mode.visibility();
    }

    /// Enters a specialist view, and the operator mode that goes with it;
    /// leaving the specialist view keeps the mode and the panels.
    pub fn set_specialist_view(&mut self, specialist: SpecialistView)
        ensures
            final(self).specialist_view == specialist,
            final(self).operator_mode == specialist.mode_spec(old(self).operator_mode),
            final(self).visibility == if specialist == SpecialistView::Off {
                old(self).visibility
            } else {
                specialist.mode_spec(old(self).operator_mode).visibility_spec()
            },
            final(self).theme_name == old(self).theme_name,
            final(self).locale == old(self).locale,
            final(self).detail_level == old(self).detail_level,
    {
        self.specialist_view = specialist;
        self.operator_mode = match specialist {
            SpecialistView::Off => self.operator_mode,
            SpecialistView::Pressure => OperatorMode::Pressure,
            SpecialistView::Network => OperatorMode::Network,
            SpecialistView::Jvm => OperatorMode::Process,
            SpecialistView::DiskPressure => OperatorMode::Storage,
            SpecialistView::DiskInventory => OperatorMode::Storage,
        };
        if specialist != SpecialistView::Off {
            self.visibility = self.operator_mode.visibility();
        }
    }

    /// One key press: `t` moves to the next theme, a panel key shows or
    /// hides its panel, and nothing else changes the state.
    pub fn handle_key(&mut self, key: char) -> (r: KeyOutcome)
        ensures
            r == key_outcome_spec(key),
            *final(self) == key_step_spec(*old(self), key),
    {
        let panel = if key == 'c' || key == 'C' {
            Some(Panel::Cpu)
        } else if key == 'm' || key == 'M' {
            Some(Panel::Memory)
        } else if key == 'l' || key == 'L' {
            Some(Panel::Linux)
        } else if key == 'd' || key == 'D' {
            Some(Panel::Disk)
        } else if key == 'n' || key == 'N' {
            Some(Panel::Network)
        } else if key == 'a' || key == 'A' {
            Some(Panel::Alerts)
        } else if key == 'p' || key == 'P' {
            Some(Panel::Process)
        } else {
            None
        };
        if key == 'q' || key == 'Q' {
            KeyOutcome::Quit
        } else if key == 'r' || key == 'R' {
            KeyOutcome::Redraw
        } else if key == 't' || key == 'T' {
            self.cycle_theme();
            KeyOutcome::Redraw
        } else {
            match panel {
                Some(p) => {
                    self.toggle_panel(p);
                    KeyOutcome::Redraw
                },
                None => KeyOutcome::Nothing,
            }
        }
    }

    /// The panels of `panels` that show, in their order.
    pub fn visible_panels(&self, panels: &Vec<Panel>) -> (r: Vec<Panel>)
        ensures
            r@ == panels@.filter(|p: Panel| self.visibility.shows(p)),
    {
        let mut out: Vec<Panel> = Vec::new();
        let mut i: usize = 0;
        while i < panels.len()
            invariant
                i <= panels.len(),
                out@ == panels@.take(i as int).filter(|p: Panel| self.visibility.shows(p)),
            decreases panels.len() - i,
        {
            let p = panels[i];
            assert(panels@.take(i + 1).drop_last() =~= panels@.take(i as int));
            if self.visibility.is_visible(p) {
                out.push(p);
            }
            proof {
                reveal(Seq::filter);
            }
            i += 1;
        }
        assert(panels@.take(panels.len() as int) =~= panels@);
        out
    }

    /// What the monitoring area holds: whether the left stack (system, CPU,
    /// memory, Linux), the right stack (disk, network, alerts) and the
    /// process table show.
    pub fn monitoring_plan(&self) -> (r: (bool, bool, bool))
        ensures
            r.0 == (self.visibility.system || self.visibility.cpu || self.visibility.memory
                || self.visibility.linux),
            r.1 == (self.visibility.disk || self.visibility.network || self.visibility.alerts),
            r.2 == self.visibility.process,
    {
        let v = self.visibility;
        (v.system || v.cpu || v.memory || v.linux, v.disk || v.network || v.alerts, v.process)
    }

    /// The label of the reference panel: the mode, and the specialist view
    /// when there is one.
    pub fn reference_context_label(&self) -> (r: String)
        ensures
            r@ == if self.specialist_view == SpecialistView::Off {
                self.operator_mode.label_spec(self.locale)@
            } else {
                self.operator_mode.label_spec(self.locale)@ + " + "@
                    + self.specialist_view.label_spec(self.locale)@
            },
    {
        let mut s = String::new();
        push_str(&mut s, self.operator_mode.label(self.locale));
        if self.specialist_view != SpecialistView::Off {
            push_str(&mut s, " + ");
            push_str(&mut s, self.specialist_view.label(self.locale));
        }
        s
    }
}

impl DashboardState {
    /// Browsing rank bonus of catalog entry `m` at position `i`: that of the
    /// operator mode plus that of the specialist view.
    pub open spec fn browse_score(self, m: EntryModel, i: int) -> nat {
        (self.operator_mode.bias_spec(m.panel@, m.category@, i as usize)
            + self.specialist_view.bias_spec(m.panel@, m.category@, m.id@, i as usize)) as nat
    }

    pub open spec fn browse_scores(self, c: Seq<EntryModel>) -> Seq<Option<nat>> {
        Seq::new(c.len(), |i: int| Some(self.browse_score(c[i], i)))
    }

    /// The whole reference, ordered for browsing in the current mode and
    /// view: highest bonus first, equal bonuses by title.
    pub fn browse_hits(&self) -> (r: Vec<SearchHit>)
        ensures
            hits_are(
                r@,
                ranked_by(
                    catalog_spec(),
                    self.browse_scores(catalog_spec()),
                    self.locale,
                    catalog_spec().len() as int,
                ),
                catalog_spec(),
                self.locale,
            ),
    {
        let c = catalog();
        let ghost mc = models(c@);
        let mut scores: Vec<Option<usize>> = Vec::new();
        let mut i: usize = 0;
        while i < c.len()
            invariant
                i <= c.len(),
                mc == models(c@),
                mc == catalog_spec(),
                scores.len() == i,
                forall|k: int|
                    0 <= k < i ==> #[trigger] nat_scores(scores@)[k] == Some(
                        self.browse_score(mc[k], k),
                    ),
            decreases c.len() - i,
        {
            assert(mc[i as int] == model_of(c@[i as int]));
            let e = &c[i];
            let a = self.operator_mode.reference_bias(e.panel, e.category, i);
            let b = self.specialist_view.reference_bias(e.panel, e.category, e.id, i);
            assert(a <= 10000 && b <= 20000);
            let ghost before = scores@;
            scores.push(Some(a + b));
            assert forall|k: int| 0 <= k < i + 1 implies #[trigger] nat_scores(scores@)[k] == Some(
                self.browse_score(mc[k], k),
            ) by {
                if k < i {
                    assert(scores@[k] == before[k]);
                    assert(nat_scores(before)[k] == Some(self.browse_score(mc[k], k)));
                }
            }
            i += 1;
        }
        assert(nat_scores(scores@) =~= self.browse_scores(mc));
        rank_entries(&c, &scores, self.locale)
    }

    /// What the reference panel lists: the whole reference ordered for
    /// browsing without a query, the search result with one.
    pub fn reference_hits(&self, reference: &ReferenceUiState) -> (r: Vec<SearchHit>)
        ensures
            reference.query@.len() == 0 ==> hits_are(
                r@,
                ranked_by(
                    catalog_spec(),
                    self.browse_scores(catalog_spec()),
                    self.locale,
                    catalog_spec().len() as int,
                ),
                catalog_spec(),
                self.locale,
            ),
            reference.query@.len() > 0 ==> hits_are(
                r@,
                search_spec(catalog_spec(), normalize_spec(reference.query@), self.locale),
                catalog_spec(),
                self.locale,
            ),
    {
        if reference.query.as_str().is_empty() {
            self.browse_hits()
        } else {
            search(reference.query.as_str(), self.locale)
        }
    }

    /// Whether a panel is lit because the reference query matches it.
    pub fn panel_highlighted(&self, panel: Panel, reference: &ReferenceUiState) -> (r: bool)
        ensures
            r == crate::reference::panel_match_spec(
                catalog_spec(),
                panel_key_spec(panel)@,
                normalize_spec(reference.query@),
            ),
    {
        crate::reference::panel_matches_query(panel_key(panel), reference.query.as_str())
    }
}

/// Leaving a specialist view (view `Off`) changes neither the mode nor the
/// panels; entering one always lands on the mode that it names.
pub proof fn law_specialist_mode(specialist: SpecialistView, current: OperatorMode)
    ensures
        SpecialistView::Off.mode_spec(current) == current,
        specialist != SpecialistView::Off ==> specialist.mode_spec(current) == specialist.mode_spec(
            OperatorMode::Full,
        ),
{
}

/// Lines of header for a terminal `width` columns wide: one from 150
/// columns, two from 95, three below.
pub open spec fn header_rows(width: u16) -> u16 {
    if width >= 150 {
        1u16
    } else if width >= 95 {
        2u16
    } else {
        3u16
    }
}

/// Lines of footer for a terminal `width` columns wide: three from 180
/// columns, four from 120, five below.
pub open spec fn footer_rows(width: u16) -> u16 {
    if width >= 180 {
        3u16
    } else if width >= 120 {
        4u16
    } else {
        5u16
    }
}

/// Lines of header for a terminal `width` columns wide.
pub fn header_height(width: u16) -> (r: u16)
    ensures
        r == header_rows(width),
{
    if width >= 150 {
        1
    } else if width >= 95 {
        2
    } else {
        3
    }
}

/// Lines of footer for a terminal `width` columns wide.
pub fn footer_height(width: u16) -> (r: u16)
    ensures
        r == footer_rows(width),
{
    if width >= 180 {
        3
    } else if width >= 120 {
        4
    } else {
        5
    }
}

// ─── Texts of the header and footer ─────────────────────────────────────────
/// Uptime as `up 2d 3h 4m`, `up 3h 4m` or `up 4m`.
pub open spec fn uptime_spec(secs: nat) -> Seq<char> {
    let days = secs / 86400;
    let hours = (secs % 86400) / 3600;
    let mins = (secs % 3600) / 60;
    if days > 0 {
        "up "@ + decimal(days) + "d "@ + decimal(hours) + "h "@ + decimal(mins) + seq!['m']
    } else if hours > 0 {
        "up "@ + decimal(hours) + "h "@ + decimal(mins) + seq!['m']
    } else {
        "up "@ + decimal(mins) + seq!['m']
    }
}

pub fn format_uptime(secs: u64) -> (r: String)
    ensures
        r@ == uptime_spec(secs as nat),
{
    let days = secs / 86400;
    let hours = (secs % 86400) / 3600;
    let mins = (secs % 3600) / 60;
    let mut s = String::new();
    push_str(&mut s, "up ");
    if days > 0 {
        push_u64(&mut s, days);
        push_str(&mut s, "d ");
        push_u64(&mut s, hours);
        push_str(&mut s, "h ");
    } else if hours > 0 {
        push_u64(&mut s, hours);
        push_str(&mut s, "h ");
    }
    push_u64(&mut s, mins);
    proof {
        reveal_strlit("m");
    }
    push_str(&mut s, "m");
    s
}

/// Two decimal digits of `n` (below 100).
pub open spec fn two_digits(n: nat) -> Seq<char> {
    seq![digit_char(n / 10), digit_char(n % 10)]
}

/// A time of day, `seconds` after midnight, as `HH:MM:SS`.
pub open spec fn clock_of_day_spec(seconds: nat) -> Seq<char> {
    two_digits(seconds / 3600) + seq![':'] + two_digits((seconds % 3600) / 60) + seq![':'] + two_digits(
        seconds % 60,
    )
}

fn push_two_digits(s: &mut String, n: u64)
    requires
        n < 100,
    ensures
        final(s)@ == old(s)@ + two_digits(n as nat),
{
    push_char(s, digit_char_exec(n / 10));
    push_char(s, digit_char_exec(n % 10));
    assert(final(s)@ =~= old(s)@ + two_digits(n as nat));
}

/// The time of day `seconds` after midnight, as `HH:MM:SS`.
pub fn clock_of_day(seconds: u32) -> (r: String)
    requires
        seconds < 86400,
    ensures
        r@ == clock_of_day_spec(seconds as nat),
{
    let t = seconds as u64;
    let mut s = String::new();
    push_two_digits(&mut s, t / 3600);
    push_char(&mut s, ':');
    push_two_digits(&mut s, (t % 3600) / 60);
    push_char(&mut s, ':');
    push_two_digits(&mut s, t % 60);
    assert(s@ =~= clock_of_day_spec(seconds as nat));
    s
}

/// Whether `chrono` holds the instant `secs` seconds after the epoch (its
/// calendar reaches about 262 000 years either side of year 0).
pub uninterp spec fn chrono_instant_exists(secs: i64) -> bool;

/// `chrono::DateTime::from_timestamp(secs, 0)` and, of the instant,
/// `Timelike::num_seconds_from_midnight`. The source takes the time of day
/// as `secs.rem_euclid(86_400)`, and gives no instant only for a date out
/// of its calendar; the contract names that condition.
#[verifier::external_body]
fn utc_seconds_of_day(secs: i64) -> (r: Option<u32>)
    ensures
        r is Some <==> chrono_instant_exists(secs),
        r matches Some(t) ==> t as int == (secs as int) % 86400,
{
    chrono::DateTime::from_timestamp(secs, 0).map(|d| chrono::Timelike::num_seconds_from_midnight(&d))
}

/// The UTC clock of the instant `ts` seconds after the epoch, `HH:MM:SS`;
/// nothing for an instant out of `chrono`'s calendar.
pub fn clock_text(ts: i64) -> (r: String)
    ensures
        r@ == if chrono_instant_exists(ts) {
            clock_of_day_spec(((ts as int) % 86400) as nat)
        } else {
            Seq::empty()
        },
{
    match utc_seconds_of_day(ts) {
        Some(t) => clock_of_day(t),
        None => String::new(),
    }
}

/// A panel switch of the footer: `key:label`, with ` off` when hidden.
pub fn panel_toggle_text(key: &str, label: &str, visible: bool) -> (r: String)
    ensures
        r@ == key@ + seq![':'] + label@ + if visible {
            Seq::<char>::empty()
        } else {
            " off"@
        },
{
    let mut s = String::new();
    push_str(&mut s, key);
    proof {
        reveal_strlit(":");
    }
    push_str(&mut s, ":");
    push_str(&mut s, label);
    if !visible {
        push_str(&mut s, " off");
    }
    s
}

/// What `esc` does: close the search input, else close the index, else
/// clear the query.
pub fn escape_hint(locale: Locale, reference: &ReferenceUiState) -> (r: &'static str)
    ensures
        r == if reference.input_active {
            text_spec(locale, ":fermer recherche", ":close search")
        } else if reference.visible {
            text_spec(locale, ":fermer index", ":close index")
        } else {
            text_spec(locale, ":vider", ":clear")
        },
{
    if reference.input_active {
        text(locale, ":fermer recherche", ":close search")
    } else if reference.visible {
        text(locale, ":fermer index", ":close index")
    } else {
        text(locale, ":vider", ":clear")
    }
}

/// The reference status of the header: `index:off` without a query,
/// `search:<query>` with one.
pub fn reference_header_text(locale: Locale, query: &str) -> (r: String)
    ensures
        r@ == if query@.len() == 0 {
            text_spec(locale, "index", "index")@ + seq![':'] + text_spec(locale, "off", "off")@
        } else {
            text_spec(locale, "search", "search")@ + seq![':'] + query@
        },
{
    let mut s = String::new();
    proof {
        reveal_strlit(":");
    }
    if query.is_empty() {
        push_str(&mut s, text(locale, "index", "index"));
        push_str(&mut s, ":");
        push_str(&mut s, text(locale, "off", "off"));
    } else {
        push_str(&mut s, text(locale, "search", "search"));
        push_str(&mut s, ":");
        push_str(&mut s, query);
    }
    s
}

/// The reference status of the footer: `reference:all` without a query,
/// `reference:<query>` with one.
pub fn reference_status_text(locale: Locale, query: &str) -> (r: String)
    ensures
        r@ == text_spec(locale, "reference", "reference")@ + seq![':'] + if query@.len() == 0 {
            text_spec(locale, "tout", "all")@
        } else {
            query@
        },
{
    let mut s = String::new();
    proof {
        reveal_strlit(":");
    }
    push_str(&mut s, text(locale, "reference", "reference"));
    push_str(&mut s, ":");
    if query.is_empty() {
        push_str(&mut s, text(locale, "tout", "all"));
    } else {
        push_str(&mut s, query);
    }
    s
}

/// The panel count of the footer: `visible:<n>/8`.
pub fn visible_status_text(locale: Locale, visibility: &PanelVisibility) -> (r: String)
    ensures
        r@ == text_spec(locale, "visibles", "visible")@ + seq![':'] + decimal(
            visibility.count_spec(),
        ) + "/8  "@,
{
    let mut s = String::new();
    proof {
        reveal_strlit(":");
    }
    push_str(&mut s, text(locale, "visibles", "visible"));
    push_str(&mut s, ":");
    push_u64(&mut s, visibility.visible_count() as u64);
    push_str(&mut s, "/8  ");
    s
}

/// The selected row of the reference panel, kept inside the list.
pub fn clamp_selection(selected: usize, hit_count: usize) -> (r: usize)
    ensures
        r == if hit_count == 0 {
            0
        } else if selected < hit_count {
            selected
        } else {
            (hit_count - 1) as usize
        },
{
    let last = hit_count.saturating_sub(1);
    if selected < last {
        selected
    } else {
        last
    }
}

/// How many hits show on the panels (the rest is indexed only).
pub open spec fn visible_hit_count(hits: Seq<SearchHit>) -> nat
    decreases hits.len(),
{
    if hits.len() == 0 {
        0
    } else {
        visible_hit_count(hits.drop_last()) + if hits.last().entry.ui_visibility
            == UiVisibility::Visible {
            1nat
        } else {
            0nat
        }
    }
}

/// The hits that show on the panels and those that are indexed only.
pub fn reference_counts(hits: &Vec<SearchHit>) -> (r: (usize, usize))
    ensures
        r.0 == visible_hit_count(hits@),
        r.0 + r.1 == hits@.len(),
{
    let mut visible: usize = 0;
    let mut i: usize = 0;
    while i < hits.len()
        invariant
            i <= hits.len(),
            visible == visible_hit_count(hits@.take(i as int)),
            visible <= i,
        decreases hits.len() - i,
    {
        assert(hits@.take(i + 1).drop_last() =~= hits@.take(i as int));
        if hits[i].entry.ui_visibility == UiVisibility::Visible {
            visible += 1;
        }
        i += 1;
    }
    assert(hits@.take(hits.len() as int) =~= hits@);
    (visible, hits.len() - visible)
}

// ─── Widget texts ───────────────────────────────────────────────────────────
/// At most `max` characters: a longer text keeps its first `max - 1`
/// characters and ends with `…`.
pub open spec fn truncate_spec(s: Seq<char>, max: nat) -> Seq<char> {
    if s.len() <= max {
        s
    } else {
        s.take(if max > 0 { max - 1 } else { 0 }) + seq!['…']
    }
}

/// At most `max` characters: a longer text starts with `…` and keeps its
/// last `max - 1` characters.
pub open spec fn truncate_left_spec(s: Seq<char>, max: nat) -> Seq<char> {
    if s.len() <= max {
        s
    } else {
        seq!['…'] + s.skip(s.len() - if max > 0 { max - 1 } else { 0 })
    }
}

pub fn truncate_text(value: &str, max_chars: usize) -> (r: String)
    ensures
        r@ == truncate_spec(value@, max_chars as nat),
{
    let v = chars_of(value);
    if v.len() <= max_chars {
        return value.to_owned();
    }
    let keep: usize = if max_chars > 0 { max_chars - 1 } else { 0 };
    let mut out = String::new();
    let mut i: usize = 0;
    while i < keep
        invariant
            i <= keep < v.len(),
            out@ == v@.take(i as int),
        decreases keep - i,
    {
        push_char(&mut out, v[i]);
        assert(v@.take(i + 1) =~= v@.take(i as int).push(v@[i as int]));
        i += 1;
    }
    push_char(&mut out, '…');
    out
}

pub fn truncate_left(value: &str, max_chars: usize) -> (r: String)
    ensures
        r@ == truncate_left_spec(value@, max_chars as nat),
{
    let v = chars_of(value);
    if v.len() <= max_chars {
        return value.to_owned();
    }
    let keep: usize = if max_chars > 0 { max_chars - 1 } else { 0 };
    let from: usize = v.len() - keep;
    let mut out = String::new();
    push_char(&mut out, '…');
    let mut i: usize = from;
    while i < v.len()
        invariant
            from <= i <= v.len(),
            out@ == seq!['…'] + v@.subrange(from as int, i as int),
        decreases v.len() - i,
    {
        push_char(&mut out, v[i]);
        assert(v@.subrange(from as int, i + 1) =~= v@.subrange(from as int, i as int).push(
            v@[i as int],
        ));
        i += 1;
    }
    assert(v@.subrange(from as int, v.len() as int) =~= v@.skip(from as int));
    out
}

/// The tag of an alert in the alerts panel.
pub fn alert_level_label(level: AlertLevel) -> (r: &'static str)
    ensures
        r@ == match level {
            AlertLevel::Critical => "CRIT"@,
            AlertLevel::Warning => "WARN"@,
            AlertLevel::Info => "INFO"@,
        },
{
    match level {
        AlertLevel::Critical => "CRIT",
        AlertLevel::Warning => "WARN",
        AlertLevel::Info => "INFO",
    }
}

/// The tag of a log entry in the log panel (the same in both languages).
pub fn log_level_label(level: AlertLevel, locale: Locale) -> (r: &'static str)
    ensures
        r@ == match level {
            AlertLevel::Critical => "ERR"@,
            AlertLevel::Warning => "WRN"@,
            AlertLevel::Info => "INF"@,
        },
{
    match level {
        AlertLevel::Critical => text(locale, "ERR", "ERR"),
        AlertLevel::Warning => text(locale, "WRN", "WRN"),
        AlertLevel::Info => text(locale, "INF", "INF"),
    }
}

} // verus!
