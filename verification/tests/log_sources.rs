use pulsar::collectors::{AlertLevel, LogEntry};
use pulsar::log_sources::{
    file_entries, has_wildcard, infer_level, journal_entry, macos_events, order_log_entries,
    journal_args, journal_events, priority_to_level, select_recent_files, system_events, windows_events, Os, tail_lines, wildcard_match, wildcard_match_path, wildcard_prefix,
    windows_entry, windows_level,
};

#[test]
fn wildcard_match_supports_star_and_question_mark() {
    assert!(wildcard_match(b"/var/log/*.log", b"/var/log/sys.log"));
    assert!(wildcard_match(b"/tmp/app-?.txt", b"/tmp/app-1.txt"));
    assert!(!wildcard_match(b"/tmp/app-?.txt", b"/tmp/app-10.txt"));
}

#[test]
fn wildcard_edges() {
    assert!(wildcard_match(b"*", b""));
    assert!(wildcard_match(b"", b""));
    assert!(!wildcard_match(b"", b"a"));
    assert!(wildcard_match(b"a*b*c", b"axxbyyc"));
    assert!(!wildcard_match(b"a*b", b"ac"));
    assert!(wildcard_match_path("/var/*/x.log", "/var/a/b/x.log"));
}

#[test]
fn wildcard_prefix_and_detection() {
    assert!(has_wildcard("/var/log/*.log"));
    assert!(has_wildcard("/tmp/a?"));
    assert!(!has_wildcard("/var/log/syslog"));
    assert_eq!(wildcard_prefix("/var/log/app-?/*.log"), "/var/log/app-");
    assert_eq!(wildcard_prefix("/etc/hosts"), "/etc/hosts");
}

#[test]
fn levels_from_words_and_priorities() {
    assert_eq!(infer_level("Kernel PANIC now"), AlertLevel::Critical);
    assert_eq!(infer_level("connection Timeout"), AlertLevel::Warning);
    assert_eq!(infer_level("all good"), AlertLevel::Info);
    assert_eq!(infer_level("warning then error"), AlertLevel::Critical);
    assert_eq!(priority_to_level(Some(0)), AlertLevel::Critical);
    assert_eq!(priority_to_level(Some(3)), AlertLevel::Critical);
    assert_eq!(priority_to_level(Some(4)), AlertLevel::Warning);
    assert_eq!(priority_to_level(Some(5)), AlertLevel::Info);
    assert_eq!(priority_to_level(None), AlertLevel::Info);
    assert_eq!(windows_level("Error"), AlertLevel::Critical);
    assert_eq!(windows_level("CRITICAL"), AlertLevel::Critical);
    assert_eq!(windows_level("Warning"), AlertLevel::Warning);
    assert_eq!(windows_level("Information"), AlertLevel::Info);
}

#[test]
fn journal_records_become_entries() {
    let e = journal_entry(
        "disk failed".to_string(),
        Some("1700000000123456".to_string()),
        Some("3".to_string()),
        Some("kernel".to_string()),
        5,
    );
    assert_eq!(e.timestamp, 1_700_000_000);
    assert_eq!(e.level, AlertLevel::Critical);
    assert_eq!(e.source, "kernel");
    assert_eq!(e.origin, "journalctl");
    let f = journal_entry("hello".to_string(), Some("bad".to_string()), None, None, 42);
    assert_eq!(f.timestamp, 42);
    assert_eq!(f.level, AlertLevel::Info);
    assert_eq!(f.source, "journal");
    let g = journal_entry("x".to_string(), Some("-1500000".to_string()), Some("300".to_string()), None, 0);
    assert_eq!(g.timestamp, -1);
    assert_eq!(g.level, AlertLevel::Info);
}

#[test]
fn windows_events_become_entries() {
    let e = windows_entry("boom".to_string(), Some("Error".to_string()), None, 7);
    assert_eq!((e.timestamp, e.level), (7, AlertLevel::Critical));
    assert_eq!(e.source, "eventlog");
    assert_eq!(e.origin, "Get-WinEvent");
    let f = windows_entry("m".to_string(), None, Some("Disk".to_string()), 0);
    assert_eq!(f.level, AlertLevel::Info);
    assert_eq!(f.source, "Disk");
}

#[test]
fn macos_log_keeps_last_lines() {
    let out = "first line error\n\n2024-01-01 10:00:00.000 Df kernel[0:1] a warning here\nlast\n";
    let es = macos_events(out, 3, 9);
    assert_eq!(es.len(), 2);
    assert_eq!(es[0].source, "a");
    assert_eq!(es[0].level, AlertLevel::Warning);
    assert_eq!(es[1].message, "last");
    assert_eq!(es[1].source, "log");
    assert_eq!(es[1].origin, "log show");
    assert_eq!(macos_events(out, 10, 9).len(), 3);
}

#[test]
fn tailing_keeps_last_lines_and_skips_blank_ones() {
    let lines = tail_lines("a\nb\r\nc\nd", 2);
    assert_eq!(lines, vec!["c".to_string(), "d".to_string()]);
    assert_eq!(tail_lines("a\nb\n", 5), vec!["a".to_string(), "b".to_string()]);
    let es = file_entries("/var/log/x.log", 100, &vec!["  fatal thing ".to_string(), "   ".to_string(), "ok".to_string()]);
    assert_eq!(es.len(), 2);
    assert_eq!(es[0].message, "fatal thing");
    assert_eq!(es[0].level, AlertLevel::Critical);
    assert_eq!(es[0].source, "file");
    assert_eq!(es[1].origin, "/var/log/x.log");
}

fn entry(ts: i64, origin: &str, msg: &str) -> LogEntry {
    LogEntry {
        timestamp: ts,
        level: AlertLevel::Info,
        source: "file".to_string(),
        origin: origin.to_string(),
        message: msg.to_string(),
    }
}

#[test]
fn entries_order_newest_first_then_origin() {
    let es = vec![entry(1, "b", "1"), entry(3, "z", "2"), entry(3, "a", "3"), entry(1, "b", "4"), entry(2, "m", "5")];
    let ordered = order_log_entries(es);
    let msgs: Vec<&str> = ordered.iter().map(|e| e.message.as_str()).collect();
    assert_eq!(msgs, vec!["3", "2", "5", "1", "4"]);
}

#[test]
fn chooses_newest_recent_files() {
    let files = vec![
        (50, "/var/log/a.log".to_string()),
        (10, "/var/log/old.log".to_string()),
        (70, "/var/log/b.log".to_string()),
        (50, "/var/log/c.log".to_string()),
    ];
    assert_eq!(
        select_recent_files(&files, 20, 10),
        vec!["/var/log/b.log", "/var/log/a.log", "/var/log/c.log"]
    );
    assert_eq!(select_recent_files(&files, 20, 2), vec!["/var/log/b.log", "/var/log/a.log"]);
    assert!(select_recent_files(&files, 100, 5).is_empty());
    assert!(select_recent_files(&files, 0, 0).is_empty());
}

#[test]
fn reads_journal_json_lines() {
    let out = "{\"MESSAGE\":\"disk failed\",\"__REALTIME_TIMESTAMP\":\"1700000000123456\",\"PRIORITY\":\"3\",\"SYSLOG_IDENTIFIER\":\"kernel\"}\n\
               not json\n\
               {\"PRIORITY\":\"6\"}\n\
               {\"MESSAGE\":[\"first\",\"second\"],\"PRIORITY\":4}\n";
    let e = journal_events(out, 99);
    assert_eq!(e.len(), 2);
    assert_eq!(e[0].timestamp, 1700000000);
    assert_eq!(e[0].level, AlertLevel::Critical);
    assert_eq!(e[0].source, "kernel");
    assert_eq!(e[0].origin, "journalctl");
    assert_eq!(e[0].message, "disk failed");
    assert_eq!(e[1].message, "first");
    assert_eq!(e[1].level, AlertLevel::Warning);
    assert_eq!(e[1].source, "journal");
    assert_eq!(e[1].timestamp, 99);
}

#[test]
fn reads_windows_event_json() {
    let one = "{\"Message\":\"Service started\",\"LevelDisplayName\":\"Information\",\"ProviderName\":\"SCM\"}";
    let e = windows_events(one, 5);
    assert_eq!(e.len(), 1);
    assert_eq!(e[0].source, "SCM");
    assert_eq!(e[0].origin, "Get-WinEvent");
    let many = "[{\"Message\":\"a\",\"LevelDisplayName\":\"Error\"},{\"LevelDisplayName\":\"Warning\"},{\"Message\":\"b\",\"LevelDisplayName\":\"Warning\"}]";
    let e = windows_events(many, 5);
    assert_eq!(e.len(), 2);
    assert_eq!(e[0].level, AlertLevel::Critical);
    assert_eq!(e[0].source, "eventlog");
    assert_eq!(e[1].level, AlertLevel::Warning);
    assert!(windows_events("not json", 5).is_empty());
}

#[test]
fn system_events_follow_the_platform() {
    assert!(system_events(Os::Linux, None, 10, 1).is_empty());
    assert!(system_events(Os::Other, Some("x".to_string()), 10, 1).is_empty());
    let mac = system_events(Os::MacOs, Some("a b c d proc1 hello\n\nx y z w proc2 error here\n".to_string()), 1, 7);
    assert_eq!(mac.len(), 1);
    assert_eq!(mac[0].source, "proc2");
    assert_eq!(mac[0].level, AlertLevel::Critical);
    let lin = system_events(Os::Linux, Some("{\"MESSAGE\":\"up\"}\n".to_string()), 10, 3);
    assert_eq!(lin.len(), 1);
    assert_eq!(lin[0].message, "up");
}

#[test]
fn journal_arguments() {
    assert_eq!(
        journal_args(3600, 24),
        vec!["--since", "-3600 seconds", "-p", "info..emerg", "-o", "json", "--no-pager", "-n", "24"]
    );
}

fn tie_entry(ts: i64, origin: &str, msg: &str) -> LogEntry {
    LogEntry {
        timestamp: ts,
        level: AlertLevel::Info,
        source: "file".to_string(),
        origin: origin.to_string(),
        message: msg.to_string(),
    }
}

#[test]
fn ordering_keeps_the_lines_of_one_file_in_order() {
    let v = vec![
        tie_entry(5, "/b", "b1"),
        tie_entry(5, "/a", "a1"),
        tie_entry(5, "/b", "b2"),
        tie_entry(9, "/c", "c1"),
        tie_entry(5, "/a", "a2"),
    ];
    let msgs: Vec<String> = order_log_entries(v).into_iter().map(|e| e.message).collect();
    assert_eq!(msgs, vec!["c1", "a1", "a2", "b1", "b2"]);
}
