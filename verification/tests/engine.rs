use pulsar::config::CollectorsConfig;
use pulsar::engine::{due_slots, registry_plan, CollectorHealth, CollectorKind, SlotSchedule, BASE_TICK_MS};

#[test]
fn health_records_runs() {
    let mut h = CollectorHealth::default();
    h.record_failure("boom".to_string());
    assert_eq!(h.error_count, 1);
    assert_eq!(h.last_error.as_deref(), Some("boom"));
    h.record_success(42);
    assert_eq!(h.run_count, 1);
    assert_eq!(h.last_ok_ts, Some(42));
    assert!(h.last_error.is_none());
}

#[test]
fn slots_run_when_due() {
    let mut a = SlotSchedule::new(1000, 0);
    let b = SlotSchedule::new(500, 200);
    assert!(a.is_due(0));
    a.reschedule(0);
    assert_eq!(a.next_run_ms, 1000);
    assert!(!a.is_due(999));
    assert_eq!(due_slots(&vec![a, b], 500), vec![1]);
    assert_eq!(due_slots(&vec![a, b], 1000), vec![0, 1]);
    assert_eq!(BASE_TICK_MS, 500);
}

#[test]
fn default_registry_plan() {
    let plan = registry_plan(&CollectorsConfig::default(), false);
    assert_eq!(
        plan,
        vec![
            (CollectorKind::Cpu, 1),
            (CollectorKind::Memory, 2),
            (CollectorKind::Disk, 2),
            (CollectorKind::Network, 2),
            (CollectorKind::Process, 2),
            (CollectorKind::System, 30),
        ]
    );
    let mut c = CollectorsConfig::default();
    c.disk = false;
    c.cpu = false;
    let p = registry_plan(&c, true);
    assert_eq!(p.len(), 5);
    assert_eq!(p[4], (CollectorKind::Linux, 30));
}
