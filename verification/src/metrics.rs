//! Execution metrics: per-operation-name counters and cumulative duration
//! with a derived running average, plus process-wide totals. One record per
//! task completion; cancellations count as failures. Counters saturate
//! instead of wrapping.

use vstd::prelude::*;
use vstd::string::StringExecFns;
use crate::table::StringTable;

verus! {

/// The counters kept for one operation name.
#[derive(Clone, Copy, Debug, PartialEq, Eq, Structural)]
pub struct PerformanceMetrics {
    pub total_tasks: u64,
    pub completed_tasks: u64,
    pub failed_tasks: u64,
    pub total_execution_time_ms: u64,
}

/// `a + b`, stopping at the largest representable value.
pub open spec fn sat_add(a: u64, b: u64) -> u64 {
    if a + b > u64::MAX {
        u64::MAX
    } else {
        (a + b) as u64
    }
}

/// `a + b`, stopping at the largest representable value.
pub fn sat_add_u64(a: u64, b: u64) -> (r: u64)
    ensures
        r == sat_add(a, b),
{
    if a > u64::MAX - b {
        u64::MAX
    } else {
        a + b
    }
}

/// One completion folded into an operation's counters.
pub open spec fn bump(e: PerformanceMetrics, duration_ms: u64, success: bool) -> PerformanceMetrics {
    PerformanceMetrics {
        total_tasks: sat_add(e.total_tasks, 1),
        completed_tasks: if success {
            sat_add(e.completed_tasks, 1)
        } else {
            e.completed_tasks
        },
        failed_tasks: if success {
            e.failed_tasks
        } else {
            sat_add(e.failed_tasks, 1)
        },
        total_execution_time_ms: sat_add(e.total_execution_time_ms, duration_ms),
    }
}

impl PerformanceMetrics {
    /// Counters before any completion.
    pub fn zero() -> (r: Self)
        ensures
            r == (PerformanceMetrics {
                total_tasks: 0u64,
                completed_tasks: 0u64,
                failed_tasks: 0u64,
                total_execution_time_ms: 0u64,
            }),
    {
        PerformanceMetrics {
            total_tasks: 0,
            completed_tasks: 0,
            failed_tasks: 0,
            total_execution_time_ms: 0,
        }
    }

    /// The derived running average: cumulative duration over completions,
    /// zero before the first completion.
    pub fn average_execution_time_ms(&self) -> (r: u64)
        ensures
            r == (if self.total_tasks == 0 {
                0u64
            } else {
                self.total_execution_time_ms / self.total_tasks
            }),
    {
        if self.total_tasks == 0 {
            0
        } else {
            self.total_execution_time_ms / self.total_tasks
        }
    }
}

/// The recorder: per-operation counters in first-recording order, and the
/// process-wide totals.
pub struct MetricsRecorder {
    pub per_op: StringTable<PerformanceMetrics>,
    pub global_total: u64,
    pub global_completed: u64,
    pub global_failed: u64,
}

impl MetricsRecorder {
    /// Well-formed: the underlying table is.
    pub open spec fn wf(self) -> bool {
        self.per_op.wf()
    }

    /// The recorded counters by operation name.
    pub open spec fn contents(self) -> Map<Seq<char>, PerformanceMetrics> {
        self.per_op.contents()
    }

    /// The operation names in first-recording order.
    pub open spec fn name_seq(self) -> Seq<Seq<char>> {
        self.per_op.key_seq()
    }

    /// A recorder with nothing recorded.
    pub fn new() -> (r: Self)
        ensures
            r.wf(),
            r.contents() == Map::<Seq<char>, PerformanceMetrics>::empty(),
            r.name_seq() == Seq::<Seq<char>>::empty(),
            r.global_total == 0 && r.global_completed == 0 && r.global_failed == 0,
    {
        MetricsRecorder {
            per_op: StringTable::new(),
            global_total: 0,
            global_completed: 0,
            global_failed: 0,
        }
    }

    /// Records one task completion under its operation name: bumps that
    /// name's counters (starting them at zero on first sight) and the
    /// process-wide totals.
    pub fn record_task_execution(&mut self, name: &str, duration_ms: u64, success: bool)
        requires
            old(self).wf(),
        ensures
            final(self).wf(),
            final(self).contents() == old(self).contents().insert(
                name@,
                bump(
                    if old(self).contents().contains_key(name@) {
                        old(self).contents()[name@]
                    } else {
                        PerformanceMetrics {
                            total_tasks: 0u64,
                            completed_tasks: 0u64,
                            failed_tasks: 0u64,
                            total_execution_time_ms: 0u64,
                        }
                    },
                    duration_ms,
                    success,
                ),
            ),
            final(self).name_seq() == if old(self).contents().contains_key(name@) {
                old(self).name_seq()
            } else {
                old(self).name_seq().push(name@)
            },
            final(self).global_total == sat_add(old(self).global_total, 1),
            final(self).global_completed == if success {
                sat_add(old(self).global_completed, 1)
            } else {
                old(self).global_completed
            },
            final(self).global_failed == if success {
                old(self).global_failed
            } else {
                sat_add(old(self).global_failed, 1)
            },
    {
        self.global_total = sat_add_u64(self.global_total, 1);
        if success {
            self.global_completed = sat_add_u64(self.global_completed, 1);
        } else {
            self.global_failed = sat_add_u64(self.global_failed, 1);
        }
        let entry = match self.per_op.get(name) {
            Some(e) => *e,
            None => PerformanceMetrics::zero(),
        };
        let updated = PerformanceMetrics {
            total_tasks: sat_add_u64(entry.total_tasks, 1),
            completed_tasks: if success {
                sat_add_u64(entry.completed_tasks, 1)
            } else {
                entry.completed_tasks
            },
            failed_tasks: if success {
                entry.failed_tasks
            } else {
                sat_add_u64(entry.failed_tasks, 1)
            },
            total_execution_time_ms: sat_add_u64(entry.total_execution_time_ms, duration_ms),
        };
        self.per_op.set(String::from_str(name), updated);
    }

    /// The counters recorded for one operation name, if any.
    pub fn get_metrics(&self, name: &str) -> (r: Option<PerformanceMetrics>)
        ensures
            r == (if self.contents().contains_key(name@) {
                Some(self.contents()[name@])
            } else {
                None
            }),
    {
        match self.per_op.get(name) {
            Some(e) => Some(*e),
            None => None,
        }
    }

    /// A snapshot of every operation's counters, in first-recording order.
    pub fn get_all_metrics(&self) -> (r: Vec<(String, PerformanceMetrics)>)
        requires
            self.wf(),
        ensures
            r@.len() == self.name_seq().len(),
            forall|i: int|
                0 <= i < r@.len() ==> (#[trigger] r@[i]).0@ == self.name_seq()[i]
                    && self.contents().contains_key(self.name_seq()[i]) && r@[i].1
                    == self.contents()[self.name_seq()[i]],
    {
        let n = self.per_op.len();
        let mut out: Vec<(String, PerformanceMetrics)> = Vec::new();
        let mut i: usize = 0;
        while i < n
            invariant
                i <= n,
                n == self.name_seq().len(),
                self.wf(),
                out@.len() == i,
                forall|k: int|
                    0 <= k < i ==> (#[trigger] out@[k]).0@ == self.name_seq()[k]
                        && self.contents().contains_key(self.name_seq()[k]) && out@[k].1
                        == self.contents()[self.name_seq()[k]],
            decreases n - i,
        {
            let name = self.per_op.key_at(i);
            proof {
                assert(self.name_seq().contains(self.name_seq()[i as int]));
            }
            let entry = match self.per_op.get(name.as_str()) {
                Some(e) => *e,
                None => PerformanceMetrics::zero(),
            };
            out.push((name.clone(), entry));
            i = i + 1;
        }
        out
    }

    /// Forgets everything recorded.
    pub fn reset_metrics(&mut self)
        ensures
            final(self).wf(),
            final(self).contents() == Map::<Seq<char>, PerformanceMetrics>::empty(),
            final(self).name_seq() == Seq::<Seq<char>>::empty(),
            final(self).global_total == 0,
            final(self).global_completed == 0,
            final(self).global_failed == 0,
    {
        self.per_op.clear();
        self.global_total = 0;
        self.global_completed = 0;
        self.global_failed = 0;
    }
}

} // verus!
