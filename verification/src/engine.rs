//! Scheduling decisions of the engine: when a collector is due, and the
//! health record that each collector run updates. Running the collectors
//! and waiting between ticks is the program's part.
use vstd::prelude::*;
use crate::config::CollectorsConfig;

verus! {

/// How often the scheduler wakes up, in milliseconds.
pub const BASE_TICK_MS: u64 = 500;

/// Health of a collector, as the health endpoint shows it.
#[derive(Debug, Clone)]
pub struct CollectorHealth {
    pub run_count: u64,
    pub error_count: u64,
    pub last_error: Option<String>,
    pub last_ok_ts: Option<i64>,
}

impl Default for CollectorHealth {
    /// No run yet.
    fn default() -> (r: Self)
        ensures
            r.run_count == 0,
            r.error_count == 0,
            r.last_error is None,
            r.last_ok_ts is None,
    {
        CollectorHealth { run_count: 0, error_count: 0, last_error: None, last_ok_ts: None }
    }
}

impl CollectorHealth {
    /// A successful run at `timestamp`: one more run, the error is cleared.
    pub fn record_success(&mut self, timestamp: i64)
        requires
            old(self).run_count < u64::MAX,
        ensures
            final(self).run_count == old(self).run_count + 1,
            final(self).error_count == old(self).error_count,
            final(self).last_ok_ts == Some(timestamp),
            final(self).last_error is None,
    {
        self.run_count = self.run_count + 1;
        self.last_ok_ts = Some(timestamp);
        self.last_error = None;
    }

    /// A failed run: one more error, and its message.
    pub fn record_failure(&mut self, message: String)
        requires
            old(self).error_count < u64::MAX,
        ensures
            final(self).error_count == old(self).error_count + 1,
            final(self).run_count == old(self).run_count,
            final(self).last_ok_ts == old(self).last_ok_ts,
            final(self).last_error == Some(message),
    {
        self.error_count = self.error_count + 1;
        self.last_error = Some(message);
    }
}

/// When a collector runs next, on a monotonic millisecond clock.
#[derive(Debug, Clone, Copy, PartialEq, Eq, Structural)]
pub struct SlotSchedule {
    pub interval_ms: u64,
    pub next_run_ms: u64,
}

impl SlotSchedule {
    /// Whether the collector runs at the tick of `now_ms`.
    pub open spec fn due_spec(self, now_ms: u64) -> bool {
        now_ms >= self.next_run_ms
    }

    /// The schedule after a run at `now_ms`: the next run an interval later.
    pub open spec fn rescheduled_spec(self, now_ms: u64) -> SlotSchedule {
        SlotSchedule { next_run_ms: (now_ms + self.interval_ms) as u64, ..self }
    }

    /// A collector registered at `now_ms` runs at the first tick.
    pub fn new(interval_ms: u64, now_ms: u64) -> (r: Self)
        ensures
            r.interval_ms == interval_ms,
            r.next_run_ms == now_ms,
    {
        SlotSchedule { interval_ms, next_run_ms: now_ms }
    }

    /// Whether the collector runs at the tick of `now_ms`.
    pub fn is_due(&self, now_ms: u64) -> (r: bool)
        ensures
            r == self.due_spec(now_ms),
    {
        now_ms >= self.next_run_ms
    }

    /// After a run at `now_ms`, whatever its outcome, the next one is an
    /// interval later.
    pub fn reschedule(&mut self, now_ms: u64)
        requires
            now_ms + old(self).interval_ms <= u64::MAX,
        ensures
            *final(self) == old(self).rescheduled_spec(now_ms),
    {
        self.next_run_ms = now_ms + self.interval_ms;
    }
}

/// A collector that has just run at `now_ms` is not due again before its
/// interval has passed, and is due at every tick from then on.
pub proof fn law_reschedule_waits_interval(s: SlotSchedule, now_ms: u64, later_ms: u64)
    requires
        now_ms + s.interval_ms <= u64::MAX,
    ensures
        s.rescheduled_spec(now_ms).due_spec(later_ms) <==> later_ms >= now_ms + s.interval_ms,
        s.rescheduled_spec(now_ms).interval_ms == s.interval_ms,
{
}

/// The slots of `schedules` that run at the tick of `now_ms`, in order.
pub fn due_slots(schedules: &Vec<SlotSchedule>, now_ms: u64) -> (r: Vec<usize>)
    ensures
        forall|k: int| 0 <= k < r.len() ==> (#[trigger] r@[k]) < schedules.len(),
        forall|k: int| 0 <= k < r.len() ==> now_ms >= schedules@[#[trigger] r@[k] as int].next_run_ms,
        forall|i: int|
            0 <= i < schedules.len() && now_ms >= (#[trigger] schedules@[i]).next_run_ms ==> r@.contains(
                i as usize,
            ),
        forall|a: int, b: int| 0 <= a < b < r.len() ==> (#[trigger] r@[a]) < (#[trigger] r@[b]),
{
    let mut out: Vec<usize> = Vec::new();
    let mut i: usize = 0;
    while i < schedules.len()
        invariant
            i <= schedules.len(),
            forall|k: int| 0 <= k < out.len() ==> (#[trigger] out@[k]) < i,
            forall|k: int|
                0 <= k < out.len() ==> now_ms >= schedules@[#[trigger] out@[k] as int].next_run_ms,
            forall|j: int|
                0 <= j < i && now_ms >= (#[trigger] schedules@[j]).next_run_ms ==> out@.contains(
                    j as usize,
                ),
            forall|a: int, b: int| 0 <= a < b < out.len() ==> (#[trigger] out@[a]) < (#[trigger] out@[b]),
        decreases schedules.len() - i,
    {
        if schedules[i].is_due(now_ms) {
            let ghost before = out@;
            out.push(i);
            assert forall|j: int|
                0 <= j < i + 1 && now_ms >= (#[trigger] schedules@[j]).next_run_ms implies out@.contains(
                j as usize,
            ) by {
                if j < i {
                    assert(before.contains(j as usize));
                    let k = choose|k: int| 0 <= k < before.len() && before[k] == j as usize;
                    assert(out@[k] == j as usize);
                } else {
                    assert(out@[out.len() - 1] == i);
                }
            }
        }
        i += 1;
    }
    out
}


/// The collectors that the engine can run.
#[derive(Debug, Clone, Copy, PartialEq, Eq, Structural)]
pub enum CollectorKind {
    Cpu,
    Memory,
    Disk,
    Network,
    Process,
    System,
    Linux,
}

/// The collectors that the settings switch on, each with its interval in
/// seconds, in registration order; system identity always runs, and the
/// Linux collector runs beside it on Linux, at the same interval.
pub open spec fn registry_plan_spec(c: CollectorsConfig, linux: bool) -> Seq<(CollectorKind, u64)> {
    (if c.cpu {
        seq![(CollectorKind::Cpu, c.cpu_interval_secs)]
    } else {
        Seq::empty()
    }) + (if c.memory {
        seq![(CollectorKind::Memory, c.memory_interval_secs)]
    } else {
        Seq::empty()
    }) + (if c.disk {
        seq![(CollectorKind::Disk, c.disk_interval_secs)]
    } else {
        Seq::empty()
    }) + (if c.network {
        seq![(CollectorKind::Network, c.network_interval_secs)]
    } else {
        Seq::empty()
    }) + (if c.process {
        seq![(CollectorKind::Process, c.process_interval_secs)]
    } else {
        Seq::empty()
    }) + seq![(CollectorKind::System, c.system_interval_secs)] + (if linux {
        seq![(CollectorKind::Linux, c.system_interval_secs)]
    } else {
        Seq::empty()
    })
}

/// Which collectors to register, and how often each runs.
pub fn registry_plan(c: &CollectorsConfig, linux: bool) -> (r: Vec<(CollectorKind, u64)>)
    ensures
        r@ == registry_plan_spec(*c, linux),
{
    let mut r: Vec<(CollectorKind, u64)> = Vec::new();
    if c.cpu {
        r.push((CollectorKind::Cpu, c.cpu_interval_secs));
    }
    if c.memory {
        r.push((CollectorKind::Memory, c.memory_interval_secs));
    }
    if c.disk {
        r.push((CollectorKind::Disk, c.disk_interval_secs));
    }
    if c.network {
        r.push((CollectorKind::Network, c.network_interval_secs));
    }
    if c.process {
        r.push((CollectorKind::Process, c.process_interval_secs));
    }
    r.push((CollectorKind::System, c.system_interval_secs));
    if linux {
        r.push((CollectorKind::Linux, c.system_interval_secs));
    }
    assert(r@ =~= registry_plan_spec(*c, linux));
    r
}


/// The interval that the settings give a kind of collector; the Linux
/// collector runs at the system-identity interval.
pub open spec fn configured_interval(c: CollectorsConfig, k: CollectorKind) -> u64 {
    match k {
        CollectorKind::Cpu => c.cpu_interval_secs,
        CollectorKind::Memory => c.memory_interval_secs,
        CollectorKind::Disk => c.disk_interval_secs,
        CollectorKind::Network => c.network_interval_secs,
        CollectorKind::Process => c.process_interval_secs,
        CollectorKind::System => c.system_interval_secs,
        CollectorKind::Linux => c.system_interval_secs,
    }
}

/// Whether the settings switch a kind of collector on: system identity
/// always, Linux on Linux, the others by their own switch.
pub open spec fn switched_on(c: CollectorsConfig, k: CollectorKind, linux: bool) -> bool {
    match k {
        CollectorKind::Cpu => c.cpu,
        CollectorKind::Memory => c.memory,
        CollectorKind::Disk => c.disk,
        CollectorKind::Network => c.network,
        CollectorKind::Process => c.process,
        CollectorKind::System => true,
        CollectorKind::Linux => linux,
    }
}

proof fn lemma_plan_entries(c: CollectorsConfig, linux: bool)
    ensures
        forall|i: int|
            0 <= i < registry_plan_spec(c, linux).len() ==> (#[trigger] registry_plan_spec(c, linux)[i]).1
                == configured_interval(c, registry_plan_spec(c, linux)[i].0) && switched_on(
                c,
                registry_plan_spec(c, linux)[i].0,
                linux,
            ),
{
}

/// The place of a kind in registration order.
spec fn kind_rank(k: CollectorKind) -> int {
    match k {
        CollectorKind::Cpu => 0,
        CollectorKind::Memory => 1,
        CollectorKind::Disk => 2,
        CollectorKind::Network => 3,
        CollectorKind::Process => 4,
        CollectorKind::System => 5,
        CollectorKind::Linux => 6,
    }
}

spec fn ranks_increase(s: Seq<(CollectorKind, u64)>) -> bool {
    forall|i: int, j: int| 0 <= i < j < s.len() ==> kind_rank((#[trigger] s[i]).0) < kind_rank((#[trigger] s[j]).0)
}

spec fn ranks_below(s: Seq<(CollectorKind, u64)>, r: int) -> bool {
    forall|i: int| 0 <= i < s.len() ==> kind_rank((#[trigger] s[i]).0) < r
}

proof fn lemma_extend_plan(s: Seq<(CollectorKind, u64)>, x: (CollectorKind, u64), on: bool)
    requires
        ranks_increase(s),
        ranks_below(s, kind_rank(x.0)),
    ensures
        ranks_increase(s + (if on { seq![x] } else { Seq::empty() })),
        ranks_below(s + (if on { seq![x] } else { Seq::empty() }), kind_rank(x.0) + 1),
{
    let t = s + (if on { seq![x] } else { Seq::empty() });
    assert forall|i: int, j: int| 0 <= i < j < t.len() implies kind_rank((#[trigger] t[i]).0) < kind_rank(
        (#[trigger] t[j]).0,
    ) by {
        assert(t[i] == s[i]);
        if j < s.len() {
            assert(t[j] == s[j]);
        }
    }
    assert forall|i: int| 0 <= i < t.len() implies kind_rank((#[trigger] t[i]).0) < kind_rank(x.0) + 1 by {
        if i < s.len() {
            assert(t[i] == s[i]);
        }
    }
}

proof fn lemma_plan_distinct(c: CollectorsConfig, linux: bool)
    ensures
        forall|i: int, j: int|
            0 <= i < j < registry_plan_spec(c, linux).len() ==> (#[trigger] registry_plan_spec(c, linux)[i]).0
                != (#[trigger] registry_plan_spec(c, linux)[j]).0,
{
    let e: Seq<(CollectorKind, u64)> = Seq::empty();
    let s1 = e + (if c.cpu { seq![(CollectorKind::Cpu, c.cpu_interval_secs)] } else { Seq::empty() });
    lemma_extend_plan(e, (CollectorKind::Cpu, c.cpu_interval_secs), c.cpu);
    let s2 = s1 + (if c.memory { seq![(CollectorKind::Memory, c.memory_interval_secs)] } else { Seq::empty() });
    lemma_extend_plan(s1, (CollectorKind::Memory, c.memory_interval_secs), c.memory);
    let s3 = s2 + (if c.disk { seq![(CollectorKind::Disk, c.disk_interval_secs)] } else { Seq::empty() });
    lemma_extend_plan(s2, (CollectorKind::Disk, c.disk_interval_secs), c.disk);
    let s4 = s3 + (if c.network { seq![(CollectorKind::Network, c.network_interval_secs)] } else { Seq::empty() });
    lemma_extend_plan(s3, (CollectorKind::Network, c.network_interval_secs), c.network);
    let s5 = s4 + (if c.process { seq![(CollectorKind::Process, c.process_interval_secs)] } else { Seq::empty() });
    lemma_extend_plan(s4, (CollectorKind::Process, c.process_interval_secs), c.process);
    let s6 = s5 + seq![(CollectorKind::System, c.system_interval_secs)];
    lemma_extend_plan(s5, (CollectorKind::System, c.system_interval_secs), true);
    let s7 = s6 + (if linux { seq![(CollectorKind::Linux, c.system_interval_secs)] } else { Seq::empty() });
    lemma_extend_plan(s6, (CollectorKind::Linux, c.system_interval_secs), linux);
    assert(e + (if c.cpu { seq![(CollectorKind::Cpu, c.cpu_interval_secs)] } else { Seq::empty() }) =~= (if c.cpu {
        seq![(CollectorKind::Cpu, c.cpu_interval_secs)]
    } else {
        Seq::empty()
    }));
    assert(s7 =~= registry_plan_spec(c, linux));
}

proof fn lemma_plan_complete(c: CollectorsConfig, linux: bool, k: CollectorKind)
    requires
        switched_on(c, k, linux),
    ensures
        exists|i: int| 0 <= i < registry_plan_spec(c, linux).len() && (#[trigger] registry_plan_spec(c, linux)[i]).0 == k,
{
    let p = registry_plan_spec(c, linux);
    let n1: int = if c.cpu { 1 } else { 0 };
    let n2: int = n1 + if c.memory { 1int } else { 0 };
    let n3: int = n2 + if c.disk { 1int } else { 0 };
    let n4: int = n3 + if c.network { 1int } else { 0 };
    let n5: int = n4 + if c.process { 1int } else { 0 };
    match k {
        CollectorKind::Cpu => assert(p[0].0 == k),
        CollectorKind::Memory => assert(p[n1].0 == k),
        CollectorKind::Disk => assert(p[n2].0 == k),
        CollectorKind::Network => assert(p[n3].0 == k),
        CollectorKind::Process => assert(p[n4].0 == k),
        CollectorKind::System => assert(p[n5].0 == k),
        CollectorKind::Linux => assert(p[n5 + 1].0 == k),
    }
}

/// The plan runs each collector that the settings switch on, once, and each
/// at the interval configured for its own kind.
pub proof fn law_plan_runs_each_collector_at_its_interval(c: CollectorsConfig, linux: bool)
    ensures
        forall|i: int|
            0 <= i < registry_plan_spec(c, linux).len() ==> (#[trigger] registry_plan_spec(c, linux)[i]).1
                == configured_interval(c, registry_plan_spec(c, linux)[i].0),
        forall|k: CollectorKind|
            switched_on(c, k, linux) <==> exists|i: int|
                0 <= i < registry_plan_spec(c, linux).len() && (#[trigger] registry_plan_spec(c, linux)[i]).0 == k,
        forall|i: int, j: int|
            0 <= i < j < registry_plan_spec(c, linux).len() ==> (#[trigger] registry_plan_spec(c, linux)[i]).0
                != (#[trigger] registry_plan_spec(c, linux)[j]).0,
{
    lemma_plan_entries(c, linux);
    lemma_plan_distinct(c, linux);
    assert forall|k: CollectorKind| switched_on(c, k, linux) <==> exists|i: int|
        0 <= i < registry_plan_spec(c, linux).len() && (#[trigger] registry_plan_spec(c, linux)[i]).0 == k by {
        if switched_on(c, k, linux) {
            lemma_plan_complete(c, linux, k);
        }
    }
}

} // verus!
