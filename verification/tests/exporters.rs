use pulsar::exporters::{
    csv_header, csv_row, csv_text, escape_label, gauge_header, metric_label, sample_line,
    CsvExporter, JsonExporter, PrometheusExporter,
};

#[test]
fn exporter_names() {
    assert_eq!(CsvExporter.name(), "csv");
    assert_eq!(JsonExporter.name(), "json");
    assert_eq!(PrometheusExporter.name(), "prometheus");
}

#[test]
fn labels_are_escaped() {
    assert_eq!(escape_label("a\\b\"c"), "a\\\\b\\\"c");
    assert_eq!(escape_label("plain"), "plain");
    assert_eq!(metric_label("eth0.100-x"), "eth0_100_x");
}

#[test]
fn prometheus_lines() {
    assert_eq!(
        gauge_header("pulsar_load_avg_1m", "Load average 1 minute"),
        "# HELP pulsar_load_avg_1m Load average 1 minute\n# TYPE pulsar_load_avg_1m gauge\n"
    );
    assert_eq!(sample_line("pulsar_up", &vec![], "1"), "pulsar_up 1\n");
    let labels = vec![("mode", "user".to_string()), ("cpu", "0".to_string())];
    assert_eq!(sample_line("m", &labels, "2.50"), "m{mode=\"user\",cpu=\"0\"} 2.50\n");
}

#[test]
fn csv_lines() {
    assert_eq!(csv_header(), "timestamp,metric,value\n");
    assert_eq!(csv_row(1700000000, "cpu.load_avg_1", "0.50"), "1700000000,cpu.load_avg_1,0.50\n");
    assert_eq!(csv_row(-5, "x", "1"), "-5,x,1\n");
}

#[test]
fn csv_text_stamps_every_row() {
    let rows = vec![
        ("cpu.global_usage_pct".to_string(), "12.50".to_string()),
        ("memory.total_kb".to_string(), "2048".to_string()),
    ];
    assert_eq!(
        csv_text(-5, &rows),
        "timestamp,metric,value\n-5,cpu.global_usage_pct,12.50\n-5,memory.total_kb,2048\n"
    );
    assert_eq!(csv_text(7, &vec![]), "timestamp,metric,value\n");
}
