use pulsar::dashboard::{footer_height, header_height, DashboardState, ReferenceUiState, ReferenceWidgetState, SpecialistView};
use pulsar::reference::{search, Locale};
use pulsar::screen::{
    footer_lines, header_lines, monitoring_layout, network_analysis_lines, reference_panel_lines, reference_panel_title, MonitoringLayout,
    TextStyle,
};
use pulsar::dashboard::Panel;
use pulsar::export::NetFigures;

fn texts(line: &[(String, TextStyle)]) -> String {
    line.iter().map(|(t, _)| t.as_str()).collect::<Vec<_>>().join("")
}

#[test]
fn header_follows_the_width() {
    let d = DashboardState::new("dark", Locale::En);
    let ui = ReferenceUiState::default();
    let wide = header_lines(&d, "box", "Linux", "up 4m", "12:00:00", &ui, 160);
    assert_eq!(wide.len(), 1);
    assert_eq!(wide[0][0], (" ◉ PULSAR ".to_string(), TextStyle::Title));
    assert_eq!(
        texts(&wide[0]),
        " ◉ PULSAR   box  Linux  up 4m  12:00:00  mode:full  lang:en  index:off"
    );
    assert_eq!(wide[0].last().unwrap().1, TextStyle::Muted);
    let mid = header_lines(&d, "box", "Linux", "up 4m", "12:00:00", &ui, 100);
    assert_eq!(mid.len(), 2);
    assert_eq!(mid[0][3], ("Linux".to_string(), TextStyle::Muted));
    assert_eq!(mid[0][7], ("12:00:00".to_string(), TextStyle::Highlight));
    let narrow = header_lines(&d, "box", "Linux", "up 4m", "12:00:00", &ui, 80);
    assert_eq!(narrow.len(), 3);
    assert_eq!(texts(&narrow[1]), "Linux  up 4m");
    let q = ReferenceUiState { visible: true, input_active: false, query: "swap".to_string(), selected: 0 };
    let searching = header_lines(&d, "box", "Linux", "up 4m", "12:00:00", &q, 80);
    assert_eq!(searching[2][4], ("search:swap".to_string(), TextStyle::Highlight));
}

#[test]
fn footer_follows_the_width() {
    let mut d = DashboardState::new("dark", Locale::En);
    let ui = ReferenceUiState::default();
    let narrow = footer_lines(&d, 0, 0, 0, &ui, "0.1.0", 100);
    assert_eq!(narrow.len(), 5);
    assert_eq!(
        texts(&narrow[0]),
        " q:quit   r:refresh   t:theme(dark)   i:lang(en)   v:detail(detailed)   /:search   ?:index   esc:clear"
    );
    assert_eq!(
        texts(&narrow[2]),
        " 1:overview   2:io   3:network   4:process   5:pressure   6:full  "
    );
    assert_eq!(texts(&narrow[4]), "visible:8/8  alerts:0 w:0 c:0  reference:all");
    assert_eq!(narrow[4][1].1, TextStyle::Highlight);
    assert_eq!(narrow[1].last().unwrap(), &("expert:none".to_string(), TextStyle::Muted));
    d.set_specialist_view(SpecialistView::Jvm);
    let mid = footer_lines(&d, 3, 2, 1, &ui, "0.1.0", 130);
    assert_eq!(mid.len(), 4);
    assert!(texts(&mid[3]).contains("d:disk off"));
    assert!(texts(&mid[3]).starts_with("s:sys  c:cpu  m:mem  l:linux off"));
    assert!(texts(&mid[3]).contains("visible:5/8  "));
    assert!(texts(&mid[3]).ends_with("alerts:3 w:2 c:1  reference:all"));
    let wider = footer_lines(&d, 3, 2, 1, &ui, "0.1.0", 150);
    assert!(texts(&wider[3]).ends_with("reference:all  Pulsar v0.1.0"));
    assert_eq!(mid[1].last().unwrap(), &("expert:jvm+".to_string(), TextStyle::Highlight));
    let wide = footer_lines(&d, 3, 2, 1, &ui, "0.1.0", 200);
    assert_eq!(wide.len(), 3);
    assert!(texts(&wide[2]).starts_with(" 1:"));
    assert!(wide[2].iter().any(|(t, s)| t == "alerts:3 w:2 c:1  " && *s == TextStyle::Alert));
}

#[test]
fn reference_panel_lists_hits() {
    let hits = search("swap", Locale::En);
    assert!(!hits.is_empty());
    let state = ReferenceWidgetState {
        query: "swap",
        mode: "full".to_string(),
        locale: Locale::En,
        visible_count: 1,
        indexed_only_count: 2,
        hits: &hits,
        selected: 0,
    };
    assert_eq!(reference_panel_title(&state), " ◉ REFERENCE SEARCH ");
    assert!(hits.len() >= 2);
    let lines = reference_panel_lines(&state, 40, 5);
    assert_eq!(lines.len(), 7);
    assert!(lines[5][0].0.starts_with("  "));
    assert_eq!(lines[5][0].1, TextStyle::Muted);
    assert_eq!(texts(&lines[0]), "query: swap");
    assert_eq!(texts(&lines[1]), "mode: full  ui: 1 visible / 2 indexed");
    assert!(lines[2].is_empty());
    assert!(lines[3][0].0.starts_with("> "));
    assert_eq!(lines[3][0].1, TextStyle::Highlight);
    assert_eq!(lines[4][0].0, hits[0].entry.summary);
    assert!(reference_panel_lines(&state, 0, 5).is_empty());
    let empty = ReferenceWidgetState { hits: &[], query: "", ..state };
    assert_eq!(reference_panel_title(&empty), " ◉ REFERENCE INDEX ");
    let lines = reference_panel_lines(&empty, 40, 5);
    assert_eq!(lines, vec![vec![("Press / to search technical terms.".to_string(), TextStyle::Muted)]]);
}

#[test]
fn header_and_footer_fill_their_rows() {
    let d = DashboardState::new("dark", Locale::Fr);
    let ui = ReferenceUiState::default();
    for width in [0u16, 80, 94, 95, 119, 120, 149, 150, 179, 180, 250] {
        let h = header_lines(&d, "h", "os", "up 1m", "00:00:00", &ui, width);
        assert_eq!(h.len(), header_height(width) as usize);
        let f = footer_lines(&d, 1, 1, 0, &ui, "0.1.0", width);
        assert_eq!(f.len(), footer_height(width) as usize);
    }
}

#[test]
fn monitoring_area_follows_the_panels() {
    let mut d = DashboardState::new("dark", Locale::En);
    match monitoring_layout(&d) {
        MonitoringLayout::Panels(left, right, process) => {
            assert_eq!(left, vec![Panel::System, Panel::Cpu, Panel::Memory, Panel::Linux]);
            assert_eq!(right, vec![Panel::Disk, Panel::Network, Panel::Alerts]);
            assert!(process);
        }
        _ => panic!("expected panels"),
    }
    for p in [Panel::System, Panel::Cpu, Panel::Memory, Panel::Linux, Panel::Disk, Panel::Network, Panel::Alerts, Panel::Process] {
        d.toggle_panel(p);
    }
    match monitoring_layout(&d) {
        MonitoringLayout::AllHidden(t) => assert_eq!(t, "All panels hidden. Toggle with s/c/m/l/d/n/a/p."),
        _ => panic!("expected the hint"),
    }
    d.toggle_panel(Panel::Network);
    match monitoring_layout(&d) {
        MonitoringLayout::Panels(left, right, process) => {
            assert!(left.is_empty());
            assert_eq!(right, vec![Panel::Network]);
            assert!(!process);
        }
        _ => panic!("expected panels"),
    }
    d.set_specialist_view(SpecialistView::Network);
    assert!(matches!(monitoring_layout(&d), MonitoringLayout::Specialist(SpecialistView::Network)));
}

fn iface(name: &str, rx: u64, tx: u64, errors: u64) -> NetFigures {
    NetFigures {
        interface: name.to_string(),
        topology: String::new(),
        family: String::new(),
        medium: String::new(),
        rx_bytes_sec: rx,
        tx_bytes_sec: tx,
        rx_packets_sec: 0,
        tx_packets_sec: 0,
        rx_errors: errors,
        tx_errors: 0,
        rx_dropped: 0,
        tx_dropped: 0,
        connections_total: 9,
        connections_established: 4,
        tcp_syn_sent: 0,
        tcp_syn_recv: 0,
        tcp_fin_wait1: 0,
        tcp_fin_wait2: 0,
        tcp_time_wait: 2,
        tcp_close: 0,
        tcp_close_wait: 0,
        tcp_last_ack: 0,
        tcp_listen: 3,
        tcp_closing: 0,
        tcp_other: 0,
        udp_total: 0,
        udp_established: 0,
        udp_close: 0,
        udp_other: 0,
        retrans_segs: 7,
    }
}

#[test]
fn network_analysis_sums_and_picks_the_busiest() {
    let nets = vec![iface("lo", 4096, 1024, 0), iface("eth0", 2048, 3072, 1), iface("wlan0", 100, 10, 0)];
    let lines = network_analysis_lines(&nets, Locale::En);
    assert_eq!(lines.len(), 2);
    assert_eq!(lines[0][0].0, "rx 6 KB/s  tx 4 KB/s  ");
    assert_eq!(lines[0][1], ("errors 1 / drops 0".to_string(), TextStyle::Alert));
    assert_eq!(lines[1][0].0, "hot iface eth0  est 4  listen 3  tw 2  retrans 7");
    let quiet = network_analysis_lines(&vec![iface("lo", 0, 0, 0)], Locale::Fr);
    assert_eq!(quiet[0][1], ("erreurs 0 / pertes 0".to_string(), TextStyle::Muted));
    let none = network_analysis_lines(&Vec::new(), Locale::En);
    assert_eq!(none[1][0].0, "hot iface -  est 0  listen 0  tw 0  retrans 0");
}
