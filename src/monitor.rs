use vstd::prelude::*;
use crate::detect::{default_detectors, evaluate_all, first_verdict, Detector, ProcessSample};
use crate::task::{completion_status, later, now_secs, same_record, Task, TaskStatus};

verus! {

/// Default time between two polls, in milliseconds.
pub const DEFAULT_POLL_INTERVAL_MS: u64 = 5000;

/// What the monitor remembers of one process from the previous poll.
#[derive(Debug, Clone, Copy, PartialEq, Eq, Structural)]
pub struct PidHistory {
    pub pid: i32,
    /// Cumulative CPU ticks read at the previous poll.
    pub cpu: Option<u64>,
    /// How long the CPU time has stood still, in milliseconds.
    pub idle_ms: u64,
}

/// The first entry for `pid`, if any.
pub open spec fn lookup(ts: Seq<PidHistory>, pid: i32) -> Option<PidHistory>
    decreases ts.len(),
{
    if ts.len() == 0 {
        None
    } else if ts[0].pid == pid {
        Some(ts[0])
    } else {
        lookup(ts.subrange(1, ts.len() as int), pid)
    }
}

/// `a + b`, held at `u64::MAX`.
pub open spec fn saturating_sum(a: u64, b: u64) -> u64 {
    if a + b > u64::MAX { u64::MAX } else { (a + b) as u64 }
}

/// The idle time of a process after a poll. A process seen for the first
/// time starts at zero. An unreadable reading changes nothing. Otherwise a
/// reading equal to the previous one adds one poll interval, and any other
/// reading starts again from zero.
pub open spec fn next_idle(prev: Option<PidHistory>, current: Option<u64>, interval_ms: u64) -> u64 {
    match prev {
        None => 0,
        Some(p) => match current {
            None => p.idle_ms,
            Some(c) => match p.cpu {
                Some(l) => if l == c { saturating_sum(p.idle_ms, interval_ms) } else { 0 },
                None => 0,
            },
        },
    }
}

/// The sample of process `pid` at a poll, given what the previous poll
/// left behind.
pub open spec fn sample_of(
    prev: Seq<PidHistory>,
    pid: i32,
    current: Option<u64>,
    interval_ms: u64,
    last_check: i64,
) -> ProcessSample {
    ProcessSample {
        pid,
        last_check,
        previous_cpu: match lookup(prev, pid) {
            Some(p) => p.cpu,
            None => None,
        },
        current_cpu: current,
        idle_ms: next_idle(lookup(prev, pid), current, interval_ms),
    }
}

/// The samples of a whole process tree at a poll, in tree order.
pub open spec fn samples_of(
    prev: Seq<PidHistory>,
    tree: Seq<i32>,
    cpu: Seq<Option<u64>>,
    interval_ms: u64,
    last_check: i64,
) -> Seq<ProcessSample> {
    Seq::new(tree.len(), |i: int| sample_of(prev, tree[i], cpu[i], interval_ms, last_check))
}

/// What a poll leaves behind for the next one.
pub open spec fn history_of(ss: Seq<ProcessSample>) -> Seq<PidHistory> {
    ss.map_values(|s: ProcessSample| PidHistory { pid: s.pid, cpu: s.current_cpu, idle_ms: s.idle_ms })
}

/// Finds what the previous poll left for `pid`.
pub fn find_history(ts: &Vec<PidHistory>, pid: i32) -> (r: Option<PidHistory>)
    ensures
        r == lookup(ts@, pid),
{
    let mut i: usize = 0;
    assert(ts@.subrange(0, ts@.len() as int) == ts@);
    while i < ts.len()
        invariant
            i <= ts@.len(),
            lookup(ts@, pid) == lookup(ts@.subrange(i as int, ts@.len() as int), pid),
        decreases ts@.len() - i,
    {
        let rest = Ghost(ts@.subrange(i as int, ts@.len() as int));
        assert(rest@[0] == ts@[i as int]);
        assert(rest@.subrange(1, rest@.len() as int) == ts@.subrange(i + 1, ts@.len() as int));
        if ts[i].pid == pid {
            return Some(ts[i]);
        }
        i = i + 1;
    }
    assert(ts@.subrange(i as int, ts@.len() as int).len() == 0);
    None
}

/// Computes `next_idle`.
pub fn idle_after(prev: Option<PidHistory>, current: Option<u64>, interval_ms: u64) -> (r: u64)
    ensures
        r == next_idle(prev, current, interval_ms),
{
    match prev {
        None => 0,
        Some(p) => match current {
            None => p.idle_ms,
            Some(c) => match p.cpu {
                Some(l) => if l == c { p.idle_ms.saturating_add(interval_ms) } else { 0 },
                None => 0,
            },
        },
    }
}

/// What the caller of `poll` does next.
#[derive(Debug)]
pub enum MonitorAction {
    /// Sleep one poll interval, then poll again.
    Continue,
    /// Stop monitoring; nothing to write.
    Stop,
    /// Store the given task, then stop monitoring.
    Save(Task),
}

/// The decisions of a monitor bound to one task and its root process. The
/// caller observes the process and the store; `poll` decides.
pub struct TaskMonitor {
    pub detectors: Vec<Detector>,
    pub poll_interval_ms: u64,
    /// What the previous poll saw of each process of the tree.
    pub history: Vec<PidHistory>,
    /// Time of the previous poll, in seconds since the Unix epoch.
    pub last_check: i64,
    pub stopped: bool,
}

impl TaskMonitor {
    /// A monitor with the given detectors, started at time `started_at`.
    pub fn with_detectors(detectors: Vec<Detector>, poll_interval_ms: u64, started_at: i64) -> (m: TaskMonitor)
        ensures
            m.detectors@ == detectors@,
            m.poll_interval_ms == poll_interval_ms,
            m.history@.len() == 0,
            m.last_check == started_at,
            !m.stopped,
    {
        TaskMonitor { detectors, poll_interval_ms, history: Vec::new(), last_check: started_at, stopped: false }
    }

    /// A monitor with the default detectors and poll interval, started now.
    pub fn new() -> (m: TaskMonitor)
        ensures
            m.detectors@.len() == 1,
            m.poll_interval_ms == DEFAULT_POLL_INTERVAL_MS,
            m.history@.len() == 0,
            !m.stopped,
    {
        let now = now_secs();
        TaskMonitor::with_detectors(default_detectors(), DEFAULT_POLL_INTERVAL_MS, now)
    }

    /// One poll at time `now`. `root_alive` tells whether the root process
    /// still exists, `task` is the task as the store holds it now, `tree` the
    /// root and its descendants, and `cpu[i]` the CPU ticks of `tree[i]`.
    pub fn poll(
        &mut self,
        root_alive: bool,
        task: Option<Task>,
        tree: &Vec<i32>,
        cpu: &Vec<Option<u64>>,
        now: i64,
    ) -> (r: MonitorAction)
        requires
            tree@.len() == cpu@.len(),
        ensures
            final(self).detectors@ == old(self).detectors@,
            final(self).poll_interval_ms == old(self).poll_interval_ms,
            old(self).stopped ==> r is Stop && final(self).stopped,
            !root_alive ==> final(self).stopped && !(r is Continue),
            !old(self).stopped && !root_alive ==> match task {
                Some(t) => r matches MonitorAction::Save(u) && {
                    &&& same_record(u, t)
                    &&& u.updated_at == later(t.updated_at, now)
                    &&& u.attention_reason is None
                    &&& u.status == completion_status(None)
                    &&& u.exit_code is None
                    &&& u.completed_at == Some(now)
                    &&& u.task_id == t.task_id
                },
                None => r is Stop,
            },
            !old(self).stopped && root_alive && (task is None || task->0.status != TaskStatus::Running)
                ==> r is Stop && final(self).stopped,
            !old(self).stopped && root_alive && task is Some && task->0.status == TaskStatus::Running ==> {
                let t = task->0;
                let ss = samples_of(old(self).history@, tree@, cpu@, old(self).poll_interval_ms, old(self).last_check);
                match first_verdict(old(self).detectors@, t, ss) {
                    Some(reason) => final(self).stopped && (r matches MonitorAction::Save(u) && {
                        &&& same_record(u, t)
                        &&& u.updated_at == later(t.updated_at, now)
                        &&& u.exit_code == t.exit_code
                        &&& u.status == TaskStatus::NeedsAttention
                        &&& (u.attention_reason matches Some(s) && s@ == reason)
                        &&& u.completed_at == t.completed_at
                        &&& u.task_id == t.task_id
                    }),
                    None => {
                        &&& r is Continue
                        &&& !final(self).stopped
                        &&& final(self).history@ == history_of(ss)
                        &&& final(self).last_check == now
                    },
                }
            },
    {
        if self.stopped {
            return MonitorAction::Stop;
        }
        if !root_alive {
            self.stopped = true;
            return match task {
                Some(mut t) => {
                    t.complete_at(None, now);
                    MonitorAction::Save(t)
                },
                None => MonitorAction::Stop,
            };
        }
        let mut t = match task {
            Some(t) => t,
            None => {
                self.stopped = true;
                return MonitorAction::Stop;
            },
        };
        if t.status != TaskStatus::Running {
            self.stopped = true;
            return MonitorAction::Stop;
        }
        let ghost ss = samples_of(self.history@, tree@, cpu@, self.poll_interval_ms, self.last_check);
        let mut samples: Vec<ProcessSample> = Vec::new();
        let mut next: Vec<PidHistory> = Vec::new();
        let mut i: usize = 0;
        while i < tree.len()
            invariant
                i <= tree@.len(),
                tree@.len() == cpu@.len(),
                ss == samples_of(self.history@, tree@, cpu@, self.poll_interval_ms, self.last_check),
                samples@ == ss.subrange(0, i as int),
                next@ == history_of(ss.subrange(0, i as int)),
            decreases tree@.len() - i,
        {
            let pid = tree[i];
            let prev = find_history(&self.history, pid);
            let previous_cpu = match prev {
                Some(p) => p.cpu,
                None => None,
            };
            let idle_ms = idle_after(prev, cpu[i], self.poll_interval_ms);
            let s = ProcessSample { pid, last_check: self.last_check, previous_cpu, current_cpu: cpu[i], idle_ms };
            samples.push(s);
            next.push(PidHistory { pid, cpu: cpu[i], idle_ms });
            proof {
                assert(ss.subrange(0, i + 1) == ss.subrange(0, i as int).push(s));
                assert(history_of(ss.subrange(0, i + 1)) =~= history_of(ss.subrange(0, i as int)).push(
                    PidHistory { pid, cpu: cpu@[i as int], idle_ms }));
            }
            i = i + 1;
        }
        assert(samples@ == ss);
        match evaluate_all(&self.detectors, &t, &samples) {
            Some(reason) => {
                t.mark_needs_attention_at(reason, now);
                self.stopped = true;
                MonitorAction::Save(t)
            },
            None => {
                self.history = next;
                self.last_check = now;
                MonitorAction::Continue
            },
        }
    }
}

/// Across two consecutive polls, a process of the tree whose CPU reading is
/// the same at both gets exactly one poll interval more idle time (short of
/// overflow), and one whose reading changed gets zero. The detectors see that
/// idle time at the second poll, and the poll records it for the next.
pub proof fn lemma_poll_idle(
    prev: Seq<PidHistory>,
    tree: Seq<i32>,
    cpu: Seq<Option<u64>>,
    interval_ms: u64,
    last_check: i64,
    i: int,
)
    requires
        tree.len() == cpu.len(),
        0 <= i < tree.len(),
        lookup(prev, tree[i]) matches Some(p) && p.cpu is Some && cpu[i] is Some,
    ensures
        ({
            let p = lookup(prev, tree[i])->0;
            let now = history_of(samples_of(prev, tree, cpu, interval_ms, last_check))[i];
            &&& now.pid == tree[i]
            &&& now.cpu == cpu[i]
            &&& samples_of(prev, tree, cpu, interval_ms, last_check)[i].idle_ms == now.idle_ms
            &&& (cpu[i] == p.cpu && p.idle_ms + interval_ms <= u64::MAX ==> now.idle_ms == p.idle_ms + interval_ms)
            &&& (cpu[i] != p.cpu ==> now.idle_ms == 0)
        }),
{
}

} // verus!
