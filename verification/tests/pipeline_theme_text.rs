use pulsar::pipeline::{pipeline_plan, MemoryPressureStage, SampleWindow, StageKind, CPU_TREND_CAPACITY};
use pulsar::text::{u64_text, str_eq};
use pulsar::theme::{names, next_name, normalize_name};

#[test]
fn stages_in_order() {
    assert_eq!(pipeline_plan(true, true, true), vec![StageKind::CpuTrend, StageKind::MemPressure, StageKind::Alerts]);
    assert_eq!(pipeline_plan(false, true, false), vec![StageKind::MemPressure]);
    assert_eq!(MemoryPressureStage::new().name(), "mem_pressure");
    assert_eq!(CPU_TREND_CAPACITY, 60);
}

#[test]
fn window_keeps_newest_samples() {
    let mut w = SampleWindow::new(3);
    for x in 1..=5u32 {
        w.push(x);
    }
    assert_eq!(w.samples, vec![3, 4, 5]);
    let mut z: SampleWindow<u32> = SampleWindow::new(0);
    z.push(1);
    z.push(2);
    assert_eq!(z.samples, vec![1, 2]);
}

#[test]
fn themes_cycle() {
    assert_eq!(names(), vec!["dark", "light", "cosmic"]);
    assert_eq!(normalize_name("light"), "light");
    assert_eq!(normalize_name("Light"), "dark");
    assert_eq!(next_name("dark"), "light");
    assert_eq!(next_name("light"), "cosmic");
    assert_eq!(next_name("cosmic"), "dark");
    assert_eq!(next_name("???"), "light");
}

#[test]
fn numbers_render_in_decimal() {
    assert_eq!(u64_text(0), "0");
    assert_eq!(u64_text(1234567890), "1234567890");
    assert_eq!(u64_text(u64::MAX), "18446744073709551615");
    assert!(str_eq("abc", "abc"));
    assert!(!str_eq("abc", "abd"));
}
