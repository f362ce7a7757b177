//! The command line: its commands and options as plain values, and the
//! reading of a recording interval. Parsing the process arguments is the
//! program's part.
use vstd::prelude::*;
use crate::text::{chars_of, parse_u64, parse_u64_spec, slice_of};

verus! {

/// Options of the program and the chosen command.
#[derive(Debug, Clone)]
pub struct Cli {
    pub config: Option<String>,
    pub log_level: Option<String>,
    pub command: Option<Commands>,
}

#[derive(Debug, Clone)]
pub enum Commands {
    Tui,
    Record {
        interval: Option<String>,
        output: Option<String>,
        rotate: Option<String>,
        max_file_size_mb: Option<u64>,
        keep_files: Option<usize>,
        compress: Option<String>,
    },
    Snapshot { format: String },
    Server { port: u16 },
    Inventory { format: String },
    Top { sort: String, limit: usize },
    Watch { pid: u32 },
    Replay { file: String },
    Explain { term: String, lang: String, audience: Option<String> },
    Install { no_service: bool, no_path: bool },
    Maintenance { action: MaintenanceAction },
    Schedule { action: ScheduleAction },
    Service { action: ServiceAction },
}

#[derive(Debug, Clone, Copy, PartialEq, Eq, Structural)]
pub enum ServiceAction {
    Install,
    Uninstall,
    Status,
}

#[derive(Debug, Clone)]
pub enum MaintenanceAction {
    DailySnapshot { output_dir: Option<String> },
    Prune { directory: Option<String>, retention_days: u64 },
    Archive {
        source_dir: Option<String>,
        archive_dir: Option<String>,
        min_age_days: u64,
        max_age_days: u64,
    },
}

#[derive(Debug, Clone, Copy, PartialEq, Eq, Structural)]
pub enum ScheduleAction {
    Install,
    Uninstall,
    Status,
}

/// A recording interval in seconds: `<n>s` is seconds, `<n>m` minutes, a
/// bare number seconds; anything else is no interval.
pub open spec fn duration_spec(s: Seq<char>) -> Option<int> {
    if s.len() > 0 && s.last() == 's' {
        match parse_u64_spec(s.drop_last()) {
            Some(v) => Some(v as int),
            None => None,
        }
    } else if s.len() > 0 && s.last() == 'm' {
        match parse_u64_spec(s.drop_last()) {
            Some(v) => Some(v * 60),
            None => None,
        }
    } else {
        match parse_u64_spec(s) {
            Some(v) => Some(v as int),
            None => None,
        }
    }
}

/// Reads a recording interval; a count of minutes must fit in seconds.
pub fn parse_duration(s: &str) -> (r: Option<u64>)
    requires
        duration_spec(s@) matches Some(v) ==> v <= u64::MAX,
    ensures
        r == match duration_spec(s@) {
            Some(v) => Some(v as u64),
            None => None::<u64>,
        },
{
    let v = chars_of(s);
    let n = v.len();
    if n > 0 && v[n - 1] == 's' {
        let body = slice_of(&v, 0, n - 1);
        assert(body@ =~= s@.drop_last());
        parse_u64(&body)
    } else if n > 0 && v[n - 1] == 'm' {
        let body = slice_of(&v, 0, n - 1);
        assert(body@ =~= s@.drop_last());
        match parse_u64(&body) {
            Some(x) => Some(x * 60),
            None => None,
        }
    } else {
        parse_u64(&v)
    }
}

} // verus!
