use pulsar::cli::parse_duration;
use pulsar::config::{ApiConfig, CollectorsConfig, ExportersConfig, GeneralConfig, LogsConfig, RecordConfig, TuiConfig};

#[test]
fn durations_read_seconds_and_minutes() {
    assert_eq!(parse_duration("5s"), Some(5));
    assert_eq!(parse_duration("2m"), Some(120));
    assert_eq!(parse_duration("30"), Some(30));
    assert_eq!(parse_duration("x"), None);
    assert_eq!(parse_duration("s"), None);
    assert_eq!(parse_duration("+7s"), Some(7));
}

#[test]
fn defaults() {
    assert_eq!(GeneralConfig::default().log_level, "info");
    let c = CollectorsConfig::default();
    assert!(c.cpu && !c.containers);
    assert_eq!((c.cpu_interval_secs, c.system_interval_secs, c.process_top_n), (1, 30, 20));
    let e = ExportersConfig::default();
    assert!(e.json && !e.csv && !e.prometheus);
    assert_eq!(e.prometheus_port, 9090);
    let a = ApiConfig::default();
    assert_eq!((a.enabled, a.port, a.bind.as_str()), (false, 8080, "127.0.0.1"));
    let t = TuiConfig::default();
    assert_eq!((t.refresh_rate_ms, t.theme.as_str(), t.locale.as_str()), (500, "dark", "fr"));
    let r = RecordConfig::default();
    assert_eq!((r.interval_secs, r.output.as_str(), r.rotate.as_str(), r.compress.as_str()), (5, ".", "never", "none"));
    let l = LogsConfig::default();
    assert_eq!((l.system_window_secs, l.system_max_entries, l.max_files, l.max_lines_per_file), (3600, 24, 8, 40));
}
