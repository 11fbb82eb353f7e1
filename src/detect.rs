use vstd::prelude::*;
use crate::task::{Task, TaskStatus};

verus! {

/// What the monitor saw of one process in the tree at one poll.
#[derive(Debug, Clone, Copy, PartialEq, Eq, Structural)]
pub struct ProcessSample {
    pub pid: i32,
    /// Time of the previous poll, in seconds since the Unix epoch.
    pub last_check: i64,
    /// Cumulative user and system CPU ticks at the previous poll.
    pub previous_cpu: Option<u64>,
    /// Cumulative user and system CPU ticks now; `None` if unreadable.
    pub current_cpu: Option<u64>,
    /// How long this process's CPU time has stood still, in milliseconds.
    pub idle_ms: u64,
}

/// A heuristic that may declare that a task needs a person's attention.
#[derive(Debug, Clone)]
pub enum Detector {
    /// Flags a running task whose process is alive but has used no CPU time
    /// for at least `threshold_ms` milliseconds.
    CpuIdle { threshold_ms: u64, reason: String },
}

/// Default threshold of the CPU-idle detector, in milliseconds.
pub const DEFAULT_IDLE_THRESHOLD_MS: u64 = 30000;

impl Detector {
    /// The reason this detector gives for `task` and `sample`, if any.
    pub open spec fn verdict(&self, task: Task, sample: ProcessSample) -> Option<Seq<char>> {
        match self {
            Detector::CpuIdle { threshold_ms, reason } => {
                if task.status == TaskStatus::Running && sample.current_cpu is Some
                    && sample.idle_ms >= *threshold_ms {
                    Some(reason@)
                } else {
                    None
                }
            },
        }
    }

    /// Evaluates this detector; it changes nothing.
    pub fn evaluate(&self, task: &Task, sample: &ProcessSample) -> (r: Option<String>)
        ensures
            r is Some == self.verdict(*task, *sample) is Some,
            r matches Some(s) ==> self.verdict(*task, *sample) == Some(s@),
    {
        match self {
            Detector::CpuIdle { threshold_ms, reason } => {
                if task.status == TaskStatus::Running && sample.current_cpu.is_some()
                    && sample.idle_ms >= *threshold_ms {
                    Some(reason.clone())
                } else {
                    None
                }
            },
        }
    }
}

/// The detectors a monitor runs unless told otherwise.
pub fn default_detectors() -> (r: Vec<Detector>)
    ensures
        r@.len() == 1,
        r@[0] matches Detector::CpuIdle { threshold_ms, .. } && threshold_ms == DEFAULT_IDLE_THRESHOLD_MS,
{
    vec![Detector::CpuIdle {
        threshold_ms: DEFAULT_IDLE_THRESHOLD_MS,
        reason: String::from_str("No CPU activity; probably waiting for input"),
    }]
}

/// The first reason that the detectors, in order, give for one sample.
pub open spec fn first_detector_verdict(ds: Seq<Detector>, task: Task, s: ProcessSample) -> Option<Seq<char>>
    decreases ds.len(),
{
    if ds.len() == 0 {
        None
    } else {
        match ds[0].verdict(task, s) {
            Some(r) => Some(r),
            None => first_detector_verdict(ds.subrange(1, ds.len() as int), task, s),
        }
    }
}

/// The first reason found over the samples in order, and for each sample
/// over the detectors in order.
pub open spec fn first_verdict(ds: Seq<Detector>, task: Task, ss: Seq<ProcessSample>) -> Option<Seq<char>>
    decreases ss.len(),
{
    if ss.len() == 0 {
        None
    } else {
        match first_detector_verdict(ds, task, ss[0]) {
            Some(r) => Some(r),
            None => first_verdict(ds, task, ss.subrange(1, ss.len() as int)),
        }
    }
}

/// Runs the detectors in order on one sample; the first reason wins.
pub fn evaluate_sample(ds: &Vec<Detector>, task: &Task, sample: &ProcessSample) -> (r: Option<String>)
    ensures
        r is Some == first_detector_verdict(ds@, *task, *sample) is Some,
        r matches Some(s) ==> first_detector_verdict(ds@, *task, *sample) == Some(s@),
{
    let mut i: usize = 0;
    assert(ds@.subrange(0, ds@.len() as int) == ds@);
    while i < ds.len()
        invariant
            i <= ds@.len(),
            first_detector_verdict(ds@, *task, *sample)
                == first_detector_verdict(ds@.subrange(i as int, ds@.len() as int), *task, *sample),
        decreases ds@.len() - i,
    {
        let rest = Ghost(ds@.subrange(i as int, ds@.len() as int));
        assert(rest@[0] == ds@[i as int]);
        assert(rest@.subrange(1, rest@.len() as int) == ds@.subrange(i + 1, ds@.len() as int));
        match ds[i].evaluate(task, sample) {
            Some(reason) => {
                return Some(reason);
            },
            None => {},
        }
        i = i + 1;
    }
    assert(ds@.subrange(i as int, ds@.len() as int).len() == 0);
    None
}

/// Runs the detectors on every sample in order; the first reason wins.
pub fn evaluate_all(ds: &Vec<Detector>, task: &Task, samples: &Vec<ProcessSample>) -> (r: Option<String>)
    ensures
        r is Some == first_verdict(ds@, *task, samples@) is Some,
        r matches Some(s) ==> first_verdict(ds@, *task, samples@) == Some(s@),
{
    let mut i: usize = 0;
    assert(samples@.subrange(0, samples@.len() as int) == samples@);
    while i < samples.len()
        invariant
            i <= samples@.len(),
            first_verdict(ds@, *task, samples@)
                == first_verdict(ds@, *task, samples@.subrange(i as int, samples@.len() as int)),
        decreases samples@.len() - i,
    {
        let rest = Ghost(samples@.subrange(i as int, samples@.len() as int));
        assert(rest@[0] == samples@[i as int]);
        assert(rest@.subrange(1, rest@.len() as int) == samples@.subrange(i + 1, samples@.len() as int));
        match evaluate_sample(ds, task, &samples[i]) {
            Some(reason) => {
                return Some(reason);
            },
            None => {},
        }
        i = i + 1;
    }
    assert(samples@.subrange(i as int, samples@.len() as int).len() == 0);
    None
}

} // verus!
