//! Settings of the engine and their defaults. Alert thresholds, which are
//! fractional percentages, are read by the program around the library.
use vstd::prelude::*;

verus! {

broadcast use vstd::string::group_string_axioms;

/// General settings.
#[derive(Debug, Clone)]
pub struct GeneralConfig {
    pub log_level: String,
    pub hostname_override: String,
}

impl Default for GeneralConfig {
    /// Log level `info`, no host name override.
    fn default() -> (r: Self)
        ensures
            r.log_level@ == seq!['i', 'n', 'f', 'o'],
            r.hostname_override@.len() == 0,
    {
        proof {
            reveal_strlit("info");
        }
        GeneralConfig { log_level: "info".to_owned(), hostname_override: String::new() }
    }
}

/// Which collectors run, how often (in seconds), and process options.
#[derive(Debug, Clone, Copy, PartialEq, Eq, Structural)]
pub struct CollectorsConfig {
    pub cpu: bool,
    pub memory: bool,
    pub disk: bool,
    pub network: bool,
    pub process: bool,
    pub containers: bool,
    pub cpu_interval_secs: u64,
    pub memory_interval_secs: u64,
    pub disk_interval_secs: u64,
    pub network_interval_secs: u64,
    pub process_interval_secs: u64,
    pub system_interval_secs: u64,
    pub process_top_n: usize,
    pub jvm_detection: bool,
}

impl Default for CollectorsConfig {
    /// Every collector but containers; CPU each second, system identity
    /// each 30 s, the others each 2 s; the top 20 processes, JVM detection.
    fn default() -> (r: Self)
        ensures
            r == (CollectorsConfig {
                cpu: true,
                memory: true,
                disk: true,
                network: true,
                process: true,
                containers: false,
                cpu_interval_secs: 1,
                memory_interval_secs: 2,
                disk_interval_secs: 2,
                network_interval_secs: 2,
                process_interval_secs: 2,
                system_interval_secs: 30,
                process_top_n: 20,
                jvm_detection: true,
            }),
    {
        CollectorsConfig {
            cpu: true,
            memory: true,
            disk: true,
            network: true,
            process: true,
            containers: false,
            cpu_interval_secs: 1,
            memory_interval_secs: 2,
            disk_interval_secs: 2,
            network_interval_secs: 2,
            process_interval_secs: 2,
            system_interval_secs: 30,
            process_top_n: 20,
            jvm_detection: true,
        }
    }
}

/// Which exporters run.
#[derive(Debug, Clone, Copy, PartialEq, Eq, Structural)]
pub struct ExportersConfig {
    pub json: bool,
    pub csv: bool,
    pub prometheus: bool,
    pub prometheus_port: u16,
}

impl Default for ExportersConfig {
    /// JSON only; Prometheus would listen on 9090.
    fn default() -> (r: Self)
        ensures
            r == (ExportersConfig { json: true, csv: false, prometheus: false, prometheus_port: 9090 }),
    {
        ExportersConfig { json: true, csv: false, prometheus: false, prometheus_port: 9090 }
    }
}

/// The HTTP interface.
#[derive(Debug, Clone)]
pub struct ApiConfig {
    pub enabled: bool,
    pub port: u16,
    pub bind: String,
}

impl Default for ApiConfig {
    /// Off; `127.0.0.1:8080` when on.
    fn default() -> (r: Self)
        ensures
            !r.enabled,
            r.port == 8080,
            r.bind@ == "127.0.0.1"@,
    {
        ApiConfig { enabled: false, port: 8080, bind: "127.0.0.1".to_owned() }
    }
}

/// The terminal interface.
#[derive(Debug, Clone)]
pub struct TuiConfig {
    pub enabled: bool,
    pub refresh_rate_ms: u64,
    pub theme: String,
    pub locale: String,
}

impl Default for TuiConfig {
    /// On, redrawn every 500 ms, dark theme, French.
    fn default() -> (r: Self)
        ensures
            r.enabled,
            r.refresh_rate_ms == 500,
            r.theme@ == seq!['d', 'a', 'r', 'k'],
            r.locale@ == seq!['f', 'r'],
    {
        proof {
            reveal_strlit("dark");
            reveal_strlit("fr");
        }
        TuiConfig {
            enabled: true,
            refresh_rate_ms: 500,
            theme: "dark".to_owned(),
            locale: "fr".to_owned(),
        }
    }
}

/// Recording of snapshots to files.
#[derive(Debug, Clone)]
pub struct RecordConfig {
    pub interval_secs: u64,
    pub output: String,
    pub rotate: String,
    pub max_file_size_mb: Option<u64>,
    pub keep_files: Option<usize>,
    pub compress: String,
}

impl Default for RecordConfig {
    /// Every 5 s into the current directory, never rotated nor compressed.
    fn default() -> (r: Self)
        ensures
            r.interval_secs == 5,
            r.output@ == seq!['.'],
            r.rotate@ == seq!['n', 'e', 'v', 'e', 'r'],
            r.max_file_size_mb is None,
            r.keep_files is None,
            r.compress@ == seq!['n', 'o', 'n', 'e'],
    {
        proof {
            reveal_strlit(".");
            reveal_strlit("never");
            reveal_strlit("none");
        }
        RecordConfig {
            interval_secs: 5,
            output: ".".to_owned(),
            rotate: "never".to_owned(),
            max_file_size_mb: None,
            keep_files: None,
            compress: "none".to_owned(),
        }
    }
}

/// System and file log collection.
#[derive(Debug, Clone)]
pub struct LogsConfig {
    pub enabled: bool,
    pub system_window_secs: u64,
    pub system_max_entries: usize,
    pub recent_file_secs: u64,
    pub max_files: usize,
    pub max_lines_per_file: usize,
    pub paths: Vec<String>,
}

impl Default for LogsConfig {
    /// On: the last hour of system events, 24 at most; the 8 files changed
    /// in the last hour, 40 lines each; no path.
    fn default() -> (r: Self)
        ensures
            r.enabled,
            r.system_window_secs == 3600,
            r.system_max_entries == 24,
            r.recent_file_secs == 3600,
            r.max_files == 8,
            r.max_lines_per_file == 40,
            r.paths@.len() == 0,
    {
        LogsConfig {
            enabled: true,
            system_window_secs: 3600,
            system_max_entries: 24,
            recent_file_secs: 3600,
            max_files: 8,
            max_lines_per_file: 40,
            paths: Vec::new(),
        }
    }
}

} // verus!
