//! The post-collection pipeline: which stages run, and the sliding window
//! of recent samples that the CPU trend stage keeps. The stages' arithmetic
//! on fractional percentages is the program's part.
use vstd::prelude::*;

verus! {

/// The stages of the pipeline, in the order in which they run.
#[derive(Debug, Clone, Copy, PartialEq, Eq, Structural)]
pub enum StageKind {
    CpuTrend,
    MemPressure,
    Alerts,
}

/// The stages that the settings switch on, in running order.
pub open spec fn pipeline_plan_spec(cpu_trend: bool, mem_pressure: bool, alerts: bool) -> Seq<StageKind> {
    (if cpu_trend {
        seq![StageKind::CpuTrend]
    } else {
        Seq::empty()
    }) + (if mem_pressure {
        seq![StageKind::MemPressure]
    } else {
        Seq::empty()
    }) + (if alerts {
        seq![StageKind::Alerts]
    } else {
        Seq::empty()
    })
}

pub fn pipeline_plan(cpu_trend: bool, mem_pressure: bool, alerts: bool) -> (r: Vec<StageKind>)
    ensures
        r@ == pipeline_plan_spec(cpu_trend, mem_pressure, alerts),
{
    let mut r: Vec<StageKind> = Vec::new();
    if cpu_trend {
        r.push(StageKind::CpuTrend);
    }
    if mem_pressure {
        r.push(StageKind::MemPressure);
    }
    if alerts {
        r.push(StageKind::Alerts);
    }
    assert(r@ =~= pipeline_plan_spec(cpu_trend, mem_pressure, alerts));
    r
}

/// How many samples the CPU trend stage keeps.
pub const CPU_TREND_CAPACITY: usize = 60;

/// Memory pressure stage (0 to 1, from memory and swap use).
pub struct MemoryPressureStage;

impl MemoryPressureStage {
    pub fn new() -> (r: Self) {
        MemoryPressureStage
    }

    pub fn name(&self) -> (r: &'static str)
        ensures
            r@ == "mem_pressure"@,
    {
        "mem_pressure"
    }
}

/// The last `capacity` samples, oldest first.
pub struct SampleWindow<T> {
    pub samples: Vec<T>,
    pub capacity: usize,
}

impl<T> SampleWindow<T> {
    /// Well formed: never more samples than the capacity.
    pub open spec fn wf(&self) -> bool {
        self.samples@.len() <= self.capacity
    }

    /// An empty window.
    pub fn new(capacity: usize) -> (r: Self)
        ensures
            r.wf(),
            r.capacity == capacity,
            r.samples@.len() == 0,
    {
        SampleWindow { samples: Vec::new(), capacity }
    }

    /// Adds a sample; a full window first drops its oldest one. A window of
    /// capacity zero keeps the sample alone.
    pub fn push(&mut self, sample: T)
        requires
            old(self).wf(),
        ensures
            final(self).capacity == old(self).capacity,
            final(self).samples@ == if old(self).samples@.len() == old(self).capacity && old(
                self,
            ).capacity > 0 {
                old(self).samples@.drop_first().push(sample)
            } else {
                old(self).samples@.push(sample)
            },
            old(self).capacity > 0 ==> final(self).wf(),
    {
        if self.samples.len() == self.capacity && self.capacity > 0 {
            self.samples.remove(0);
        }
        self.samples.push(sample);
    }
}

/// Pushing keeps the newest samples: after a push into a window of
/// positive capacity, the window is the last `capacity` (or fewer) of the
/// old samples followed by the new one.
pub proof fn law_window_keeps_newest<T>(old_samples: Seq<T>, capacity: usize, sample: T)
    requires
        capacity > 0,
        old_samples.len() <= capacity,
    ensures
        ({
            let new_samples = if old_samples.len() == capacity {
                old_samples.drop_first().push(sample)
            } else {
                old_samples.push(sample)
            };
            &&& new_samples.len() <= capacity
            &&& new_samples.last() == sample
            &&& new_samples.len() == if old_samples.len() < capacity {
                old_samples.len() + 1int
            } else {
                capacity as int
            }
            &&& new_samples == (old_samples.push(sample)).skip(
                old_samples.len() + 1 - new_samples.len(),
            )
        }),
{
    let new_samples = if old_samples.len() == capacity {
        old_samples.drop_first().push(sample)
    } else {
        old_samples.push(sample)
    };
    assert(new_samples =~= (old_samples.push(sample)).skip(old_samples.len() + 1 - new_samples.len()));
}

} // verus!
