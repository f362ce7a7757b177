use pulsar::collectors::AlertLevel;
use pulsar::dashboard::{clock_of_day, clock_text};
use pulsar::dashboard::{
    clamp_selection, escape_hint, footer_height, format_uptime, header_height, panel_key,
    panel_toggle_text, reference_counts, reference_header_text, reference_status_text, text,
    visible_status_text, DashboardState, KeyOutcome, truncate_text, truncate_left, alert_level_label, log_level_label, DetailLevel, OperatorMode, Panel, PanelVisibility,
    ReferenceUiState, SpecialistView,
};
use pulsar::reference::{search, Locale};

#[test]
fn panels_toggle_and_count() {
    let mut v = PanelVisibility::default();
    assert_eq!(v.visible_count(), 8);
    v.toggle(Panel::Disk);
    assert!(!v.is_visible(Panel::Disk));
    assert_eq!(v.visible_count(), 7);
    v.toggle(Panel::Disk);
    assert_eq!(v, PanelVisibility::default());
    assert_eq!(panel_key(Panel::Alerts), "alerts");
}

#[test]
fn modes_choose_panels_and_labels() {
    let v = OperatorMode::Storage.visibility();
    assert!(!v.system && !v.cpu && v.memory && v.linux && v.disk && !v.network && v.alerts && v.process);
    assert_eq!(OperatorMode::Full.visibility(), PanelVisibility::default());
    assert_eq!(OperatorMode::Overview.label(Locale::Fr), "vue");
    assert_eq!(OperatorMode::Overview.label(Locale::En), "overview");
    assert_eq!(SpecialistView::Jvm.label(Locale::En), "jvm+");
    assert_eq!(SpecialistView::Off.label(Locale::Fr), "aucun");
    assert_eq!(DetailLevel::Detailed.label(Locale::Fr), "detail");
    assert_eq!(text(Locale::En, "a", "b"), "b");
}

#[test]
fn reference_bias_prefers_mode_panels() {
    assert_eq!(OperatorMode::Storage.reference_bias("disk", "disk", 3), 9997);
    assert_eq!(OperatorMode::Storage.reference_bias("cpu", "cpu", 3), 997);
    assert_eq!(OperatorMode::Pressure.reference_bias("x", "linux", 0), 10000);
    assert_eq!(OperatorMode::Full.reference_bias("x", "y", 20000), 0);
    assert_eq!(SpecialistView::Network.reference_bias("cpu", "cpu", "network.tcp", 1), 19999);
    assert_eq!(SpecialistView::Off.reference_bias("disk", "disk", "disk", 0), 0);
    assert_eq!(SpecialistView::DiskPressure.reference_bias("x", "y", "disk.await", 5), 19995);
}

#[test]
fn dashboard_state_moves() {
    let mut d = DashboardState::new("nope", Locale::Fr);
    assert_eq!(d.theme_name, "dark");
    d.cycle_theme();
    assert_eq!(d.theme_name, "light");
    d.cycle_locale();
    assert_eq!(d.locale, Locale::En);
    d.toggle_detail();
    assert_eq!(d.detail_level, DetailLevel::Compact);
    d.set_specialist_view(SpecialistView::Jvm);
    assert_eq!(d.operator_mode, OperatorMode::Process);
    assert_eq!(d.visibility, OperatorMode::Process.visibility());
    d.toggle_panel(Panel::Cpu);
    d.set_specialist_view(SpecialistView::Off);
    assert_eq!(d.operator_mode, OperatorMode::Process);
    assert!(!d.visibility.cpu);
    d.set_operator_mode(OperatorMode::Network);
    assert_eq!(d.specialist_view, SpecialistView::Off);
    assert_eq!(d.monitoring_plan(), (true, true, false));
    assert_eq!(d.reference_context_label(), "network");
    d.set_specialist_view(SpecialistView::DiskInventory);
    assert_eq!(d.reference_context_label(), "io + inventory+");
    let shown = d.visible_panels(&vec![Panel::System, Panel::Cpu, Panel::Disk, Panel::Linux]);
    assert_eq!(shown, vec![Panel::Disk, Panel::Linux]);
}

#[test]
fn browsing_orders_by_mode_bias() {
    let mut d = DashboardState::new("dark", Locale::En);
    d.set_operator_mode(OperatorMode::Storage);
    let ui = ReferenceUiState::default();
    let hits = d.reference_hits(&ui);
    assert_eq!(hits.len(), 44);
    for pair in hits.windows(2) {
        assert!(pair[0].score >= pair[1].score);
    }
    assert!(["disk", "linux", "memory", "alerts"].contains(&hits[0].entry.panel));
    let q = ReferenceUiState { visible: true, input_active: false, query: "swap".to_string(), selected: 0 };
    let found = d.reference_hits(&q);
    assert_eq!(found.len(), search("swap", Locale::En).len());
    assert!(d.panel_highlighted(Panel::Memory, &q));
    assert!(!d.panel_highlighted(Panel::Network, &q));
    let (visible, indexed) = reference_counts(&found);
    assert_eq!(visible + indexed, found.len());
}

#[test]
fn layout_heights_by_width() {
    assert_eq!(header_height(200), 1);
    assert_eq!(header_height(100), 2);
    assert_eq!(header_height(80), 3);
    assert_eq!(footer_height(180), 3);
    assert_eq!(footer_height(120), 4);
    assert_eq!(footer_height(119), 5);
}

#[test]
fn header_and_footer_texts() {
    assert_eq!(format_uptime(0), "up 0m");
    assert_eq!(format_uptime(3 * 3600 + 5 * 60), "up 3h 5m");
    assert_eq!(format_uptime(2 * 86400 + 3 * 3600 + 4 * 60 + 59), "up 2d 3h 4m");
    assert_eq!(panel_toggle_text("d", "disk", true), "d:disk");
    assert_eq!(panel_toggle_text("d", "disk", false), "d:disk off");
    assert_eq!(reference_header_text(Locale::En, ""), "index:off");
    assert_eq!(reference_header_text(Locale::Fr, "swap"), "search:swap");
    assert_eq!(reference_status_text(Locale::Fr, ""), "reference:tout");
    assert_eq!(reference_status_text(Locale::En, "io"), "reference:io");
    let mut v = PanelVisibility::default();
    v.toggle(Panel::Cpu);
    assert_eq!(visible_status_text(Locale::En, &v), "visible:7/8  ");
    let ui = ReferenceUiState { visible: true, input_active: false, query: String::new(), selected: 0 };
    assert_eq!(escape_hint(Locale::En, &ui), ":close index");
    assert_eq!(clamp_selection(5, 3), 2);
    assert_eq!(clamp_selection(1, 3), 1);
    assert_eq!(clamp_selection(4, 0), 0);
}

#[test]
fn keys_drive_the_dashboard() {
    let mut d = DashboardState::new("dark", Locale::En);
    assert_eq!(d.handle_key('c'), KeyOutcome::Redraw);
    assert!(!d.visibility.is_visible(Panel::Cpu));
    assert_eq!(d.handle_key('C'), KeyOutcome::Redraw);
    assert!(d.visibility.is_visible(Panel::Cpu));
    let before = d.theme_name;
    assert_eq!(d.handle_key('t'), KeyOutcome::Redraw);
    assert_ne!(d.theme_name, before);
    assert_eq!(d.handle_key('r'), KeyOutcome::Redraw);
    assert_eq!(d.handle_key('x'), KeyOutcome::Nothing);
    assert_eq!(d.handle_key('Q'), KeyOutcome::Quit);
    assert_eq!(d.visibility.visible_count(), 8);
}

#[test]
fn widget_texts_are_cut_with_an_ellipsis() {
    assert_eq!(truncate_text("abcdef", 10), "abcdef");
    assert_eq!(truncate_text("abcdef", 4), "abc…");
    assert_eq!(truncate_text("abcdef", 0), "…");
    assert_eq!(truncate_left("/sys/fs/cgroup/user.slice", 8), "…r.slice");
    assert_eq!(truncate_left("abc", 3), "abc");
    assert_eq!(truncate_left("abcd", 0), "…");
}

#[test]
fn level_tags() {
    assert_eq!(alert_level_label(AlertLevel::Critical), "CRIT");
    assert_eq!(alert_level_label(AlertLevel::Info), "INFO");
    assert_eq!(log_level_label(AlertLevel::Warning, Locale::Fr), "WRN");
    assert_eq!(log_level_label(AlertLevel::Critical, Locale::En), "ERR");
}

#[test]
fn clock_shows_the_utc_time_of_day() {
    assert_eq!(clock_of_day(3723), "01:02:03");
    assert_eq!(clock_of_day(86399), "23:59:59");
    assert_eq!(clock_text(0), "00:00:00");
    assert_eq!(clock_text(1_700_000_000), "22:13:20");
    assert_eq!(clock_text(-1), "23:59:59");
    assert_eq!(clock_text(i64::MAX), "");
}
