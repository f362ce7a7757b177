use pulsar::platform::mount_map::{first_map, mount_map};
use pulsar::reference::{
    panel_matches_query_in, rank_entries, score_entry, search_in, search_terms, Audience, Locale,
    MetricStatus, ReferenceEntry, ReferenceText, UiVisibility,
};

fn text(title: &'static str) -> ReferenceText {
    ReferenceText { title, summary: "", beginner: "", expert: "" }
}

fn entry(id: &'static str, panel: &'static str, title: &'static str, aliases: Vec<&'static str>) -> ReferenceEntry {
    ReferenceEntry {
        id,
        category: "test",
        panel,
        status: MetricStatus::Implemented,
        ui_visibility: UiVisibility::Visible,
        audience: Audience::Beginner,
        aliases,
        tags: vec![],
        fr: text(title),
        en: text(title),
    }
}

fn small_catalog() -> Vec<ReferenceEntry> {
    vec![
        entry("disk.busy", "disk", "Busy", vec!["utilisation"]),
        entry("disk.await", "disk", "Await", vec!["latency"]),
        entry("cpu.total", "cpu", "Total", vec![]),
    ]
}

#[test]
fn exact_term_scores_highest() {
    let c = small_catalog();
    assert_eq!(score_entry(&c[1], "latency"), Some(100));
    assert_eq!(score_entry(&c[1], "laten"), Some(60));
    assert_eq!(score_entry(&c[1], "network"), None);
    assert_eq!(score_entry(&c[1], ""), Some(1));
}

#[test]
fn search_terms_start_with_id_and_panel() {
    let c = small_catalog();
    let terms = search_terms(&c[0]);
    assert_eq!(terms[0], "disk.busy");
    assert_eq!(terms[1], "disk");
    assert!(terms.contains(&"utilisation"));
}

#[test]
fn search_in_orders_by_score_then_title() {
    let c = small_catalog();
    let hits = search_in(&c, "disk", Locale::En);
    let ids: Vec<&str> = hits.iter().map(|h| h.entry.id).collect();
    assert_eq!(ids, vec!["disk.await", "disk.busy"]);
    assert!(hits.iter().all(|h| h.score == 100));
    let all = search_in(&c, "  ", Locale::Fr);
    assert_eq!(all.len(), 3);
}

#[test]
fn rank_entries_skips_unscored() {
    let c = small_catalog();
    let hits = rank_entries(&c, &vec![Some(30), None, Some(60)], Locale::En);
    let ids: Vec<&str> = hits.iter().map(|h| h.entry.id).collect();
    assert_eq!(ids, vec!["cpu.total", "disk.busy"]);
    assert_eq!(hits[0].score, 60);
}

#[test]
fn panel_match_in_small_catalog() {
    let c = small_catalog();
    assert!(panel_matches_query_in(&c, "disk", "latency"));
    assert!(!panel_matches_query_in(&c, "cpu", "latency"));
    assert!(!panel_matches_query_in(&c, "disk", ""));
}

#[test]
fn mount_maps_keep_last_or_first() {
    let pairs = vec![
        ("sda1".to_string(), "/".to_string()),
        ("sdb1".to_string(), "/data".to_string()),
        ("sda1".to_string(), "/boot".to_string()),
    ];
    let last = mount_map(&pairs);
    let first = first_map(&pairs);
    assert_eq!(last.len(), 2);
    assert_eq!(first.len(), 2);
    let find = |m: &Vec<(String, String)>, k: &str| {
        m.iter().find(|(d, _)| d == k).map(|(_, p)| p.clone())
    };
    assert_eq!(find(&last, "sda1"), Some("/boot".to_string()));
    assert_eq!(find(&first, "sda1"), Some("/".to_string()));
    assert_eq!(find(&last, "sdb1"), Some("/data".to_string()));
}
