use pulsar::reference::{
    catalog_views, normalize, panel_matches_query, search, Locale, MetricStatus, UiVisibility,
};
use pulsar::reference_catalog::catalog;

#[test]
fn search_finds_alias_match() {
    let hits = search("latency", Locale::En);
    assert!(hits.iter().any(|hit| hit.entry.id == "disk.await"));
}

#[test]
fn panel_query_match_is_detected() {
    assert!(panel_matches_query("memory", "swap"));
    assert!(!panel_matches_query("network", "swap"));
}

#[test]
fn empty_query_matches_no_panel() {
    assert!(!panel_matches_query("memory", "  ..  "));
}

#[test]
fn normalization_lowercases_and_collapses() {
    assert_eq!(normalize("  Global CPU-Usage %  "), "global cpu usage");
    assert_eq!(normalize("***"), "");
}

#[test]
fn exact_match_outranks_partial_match() {
    let hits = search("load average", Locale::En);
    assert!(!hits.is_empty());
    assert_eq!(hits[0].entry.id, "cpu.load");
    assert_eq!(hits[0].score, 100);
    for pair in hits.windows(2) {
        assert!(pair[0].score >= pair[1].score);
    }
}

#[test]
fn empty_query_lists_every_entry_with_score_one() {
    let hits = search("", Locale::Fr);
    assert_eq!(hits.len(), catalog().len());
    assert!(hits.iter().all(|h| h.score == 1));
    for pair in hits.windows(2) {
        assert!(pair[0].entry.title <= pair[1].entry.title);
    }
}

#[test]
fn unknown_terms_find_nothing() {
    assert!(search("zzzqqqxxx", Locale::En).is_empty());
}

#[test]
fn views_follow_the_locale() {
    let fr = catalog_views(Locale::Fr);
    let en = catalog_views(Locale::En);
    assert_eq!(fr.len(), 44);
    assert_eq!(fr[0].id, "cpu.usage");
    assert_eq!(fr[0].title, "CPU global");
    assert_eq!(en[0].title, "Global CPU");
    assert_eq!(fr[0].status, MetricStatus::Implemented);
    assert_eq!(fr[0].ui_visibility, UiVisibility::Visible);
}

#[test]
fn locales_parse_and_cycle() {
    assert_eq!(Locale::parse("EN-us"), Locale::En);
    assert_eq!(Locale::parse("en-GB"), Locale::En);
    assert_eq!(Locale::parse("de"), Locale::Fr);
    assert_eq!(Locale::Fr.code(), "fr");
    assert_eq!(Locale::En.next(), Locale::Fr);
    assert_eq!(Locale::parse(Locale::En.code()), Locale::En);
}

#[test]
fn both_locales_find_the_same_entries_and_scores() {
    for query in ["swap", "latence disque", "cpu", "", "psi memory"] {
        let mut fr: Vec<(&str, usize)> =
            pulsar::reference::search(query, Locale::Fr).iter().map(|h| (h.entry.id, h.score)).collect();
        let mut en: Vec<(&str, usize)> =
            pulsar::reference::search(query, Locale::En).iter().map(|h| (h.entry.id, h.score)).collect();
        fr.sort();
        en.sort();
        assert_eq!(fr, en, "query {query:?}");
    }
}
