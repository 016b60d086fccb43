//! The engine context: one explicit object holding the shutdown flag, the
//! task registry and id counter, the backpressure ceilings, the memory
//! monitor, the metrics recorder, the progress store and callback registry,
//! the dependency stores, the priority queue, and the worker pool
//! configuration. The caller constructs it, passes it to dispatchers, and
//! tears it down — there are no ambient globals, so independent engines can
//! coexist and tests are deterministic.

use vstd::prelude::*;
use vstd::hash_map::StringHashMap;
use vstd::string::StringExecFns;
use crate::admission::BackpressureConfig;
use crate::admission::config_wf;
use crate::admission::memory_within_limit;
use crate::errors::MakeParallelError;
use crate::errors::TaskError;
use crate::metrics::MetricsRecorder;
use crate::priority::PriorityQueue;
use crate::progress::CurrentTask;
use crate::progress::ProgressStore;
use crate::progress::progress_valid;
use crate::deps::DependencyTracker;
use crate::registry::ActiveSet;
use crate::registry::TaskCounter;
use crate::registry::lemma_without_id_subset;
use crate::text::task_label;
use crate::text::lemma_task_label_injective;

verus! {

/// A shutdown drain gives up after this long when no timeout is given.
pub const DEFAULT_SHUTDOWN_TIMEOUT_MS: u64 = 30000;

/// The drain polls the registry at this interval.
pub const SHUTDOWN_POLL_INTERVAL_MS: u64 = 100;

/// What the priority queue holds for the consumer: which task, running what.
pub struct PriorityWork {
    pub task_id: String,
    pub func_name: String,
}

/// The worker pool configuration callers may set; the pool itself lives with
/// the runtime.
#[derive(Clone, Copy, Debug, PartialEq, Eq, Structural)]
pub struct PoolConfig {
    pub configured: bool,
    pub num_threads: Option<usize>,
    pub stack_size: Option<usize>,
}

/// The engine context.
pub struct Engine {
    pub shutdown: bool,
    pub priority_worker_running: bool,
    pub counter: TaskCounter,
    pub active: ActiveSet,
    pub config: BackpressureConfig,
    pub monitor: sysinfo::System,
    pub metrics: MetricsRecorder,
    pub progress: ProgressStore,
    pub callbacks: StringHashMap<bool>,
    pub deps: DependencyTracker,
    pub queue: PriorityQueue<PriorityWork>,
    pub pool: PoolConfig,
}

/// Every registered id is the label of a counter value already drawn, so the
/// next fresh id can never collide with a registered one.
pub open spec fn active_ids_labeled(active: Seq<Seq<char>>, next: nat) -> bool {
    forall|i: int|
        0 <= i < active.len() ==> exists|k: nat| k < next && #[trigger] active[i] == task_label(k)
}

/// A labeled registry never contains the label of the value still to be
/// drawn.
pub proof fn lemma_fresh_label_not_active(active: Seq<Seq<char>>, next: nat)
    requires
        active_ids_labeled(active, next),
    ensures
        !active.contains(task_label(next)),
{
    if active.contains(task_label(next)) {
        let i = choose|i: int| 0 <= i < active.len() && active[i] == task_label(next);
        let k = choose|k: nat| k < next && active[i] == task_label(k);
        lemma_task_label_injective(k, next);
    }
}

/// Everything admission leaves alone besides the memory monitor.
pub open spec fn same_but_monitor(a: Engine, b: Engine) -> bool {
    &&& a.shutdown == b.shutdown
    &&& a.priority_worker_running == b.priority_worker_running
    &&& a.counter == b.counter
    &&& a.active == b.active
    &&& a.config == b.config
    &&& a.metrics == b.metrics
    &&& a.progress == b.progress
    &&& a.callbacks == b.callbacks
    &&& a.deps == b.deps
    &&& a.queue == b.queue
    &&& a.pool == b.pool
}

/// What one poll of the shutdown drain found.
pub enum DrainPoll {
    /// The registry is empty: a clean drain.
    Done,
    /// Tasks are still active and the deadline has passed.
    TimedOut,
    /// Tasks are still active; poll again after the interval.
    Wait,
}

/// Report of an accepted progress update: which task it was resolved to and
/// whether a progress callback is registered for it (the runtime then invokes
/// the callback, logging and swallowing its failures).
pub struct ProgressReport {
    pub task_id: String,
    pub invoke_callback: bool,
}

impl Engine {
    /// Well-formed: each component's invariant, and registered ids are labels
    /// of drawn counter values.
    pub open spec fn wf(self) -> bool {
        &&& config_wf(self.config)
        &&& self.metrics.wf()
        &&& self.queue.wf()
        &&& active_ids_labeled(self.active.view_ids(), self.counter.next as nat)
    }

    /// A fresh engine: nothing active, nothing recorded, no ceilings, not
    /// shut down.
    pub fn new() -> (r: Engine)
        ensures
            r.wf(),
            !r.shutdown,
            !r.priority_worker_running,
            r.counter.next == 0,
            r.active.view_ids() == Seq::<Seq<char>>::empty(),
            r.config.max_concurrent is None,
            r.config.memory_limit_percent is None,
            r.metrics.contents() == Map::<Seq<char>, crate::metrics::PerformanceMetrics>::empty(),
            r.metrics.global_total == 0,
            r.progress.contents() == Map::<Seq<char>, u32>::empty(),
            r.callbacks@ == Map::<Seq<char>, bool>::empty(),
            r.deps.results@ == Map::<Seq<char>, crate::values::TaskValue>::empty(),
            r.deps.errors@ == Map::<Seq<char>, String>::empty(),
            r.deps.edges@ == Map::<Seq<char>, Vec<String>>::empty(),
            r.queue.entries@ == Seq::<crate::priority::PriorityEntry<PriorityWork>>::empty(),
            r.pool == (PoolConfig { configured: false, num_threads: None, stack_size: None }),
    {
        Engine {
            shutdown: false,
            priority_worker_running: false,
            counter: TaskCounter::new(),
            active: ActiveSet::new(),
            config: BackpressureConfig::new(),
            monitor: sysinfo::System::new(),
            metrics: MetricsRecorder::new(),
            progress: ProgressStore::new(),
            callbacks: StringHashMap::new(),
            deps: DependencyTracker::new(),
            queue: PriorityQueue::new(),
            pool: PoolConfig { configured: false, num_threads: None, stack_size: None },
        }
    }

    /// Whether shutdown has been requested.
    pub fn is_shutdown_requested(&self) -> (r: bool)
        ensures
            r == self.shutdown,
    {
        self.shutdown
    }

    /// How many tasks are registered active.
    pub fn get_active_task_count(&self) -> (r: usize)
        ensures
            r == self.active.view_ids().len(),
    {
        self.active.count()
    }

    /// Sets the concurrency ceiling.
    pub fn set_max_concurrent_tasks(&mut self, max_tasks: usize)
        requires
            old(self).wf(),
        ensures
            final(self).wf(),
            final(self).config.max_concurrent == Some(max_tasks),
            final(self).config.memory_limit_percent == old(self).config.memory_limit_percent,
            *final(self) == (Engine { config: final(self).config, ..*old(self) }),
    {
        self.config.set_max_concurrent_tasks(max_tasks);
    }

    /// Sets the memory ceiling; rejects percentages outside 1 to 100.
    pub fn configure_memory_limit(&mut self, max_memory_percent: u64) -> (r: Result<
        (),
        MakeParallelError,
    >)
        requires
            old(self).wf(),
        ensures
            final(self).wf(),
            r is Ok <==> 1 <= max_memory_percent <= 100,
            r is Ok ==> final(self).config.memory_limit_percent == Some(max_memory_percent),
            r is Err ==> final(self).config == old(self).config,
            final(self).config.max_concurrent == old(self).config.max_concurrent,
            *final(self) == (Engine { config: final(self).config, ..*old(self) }),
    {
        self.config.configure_memory_limit(max_memory_percent)
    }

    /// Samples host memory and compares it against the configured ceiling.
    /// With no ceiling set the check always passes; with one set, the verdict
    /// follows the sampled machine state, so nothing more is promised here —
    /// the comparison itself is `memory_within_limit`, which is exact.
    pub fn check_memory_ok(&mut self) -> (r: bool)
        requires
            old(self).wf(),
        ensures
            final(self).wf(),
            same_but_monitor(*old(self), *final(self)),
            old(self).config.memory_limit_percent is None ==> r,
    {
        match self.config.memory_limit_percent {
            Some(limit) => {
                self.monitor.refresh_memory();
                let used = self.monitor.used_memory();
                let total = self.monitor.total_memory();
                memory_within_limit(used, total, limit)
            },
            None => true,
        }
    }

    /// The admission sequence every dispatch strategy shares, after the
    /// caller's slot wait: reject at once under shutdown, then reject when
    /// the sampled memory fails its ceiling; otherwise draw a fresh unique
    /// id and register it active. With no memory ceiling set, a submission
    /// outside shutdown is always admitted.
    pub fn admit_task(&mut self) -> (r: Result<String, MakeParallelError>)
        requires
            old(self).wf(),
            old(self).counter.next < u64::MAX,
        ensures
            final(self).wf(),
            old(self).shutdown <==> (r matches Err(e) && e is ShutdownInProgress),
            !old(self).shutdown && old(self).config.memory_limit_percent is None ==> r is Ok,
            r matches Err(e) ==> (e is ShutdownInProgress || (e matches
                MakeParallelError::MemoryLimitExceeded { limit_percent: lp }
                && old(self).config.memory_limit_percent == Some(lp))),
            r is Err ==> same_but_monitor(*old(self), *final(self)),
            r matches Ok(id) ==> {
                &&& id@ == task_label(old(self).counter.next as nat)
                &&& !old(self).active.view_ids().contains(id@)
                &&& final(self).active.view_ids() == old(self).active.view_ids().push(id@)
                &&& final(self).counter.next == old(self).counter.next + 1
                &&& final(self).shutdown == old(self).shutdown
                &&& final(self).priority_worker_running == old(self).priority_worker_running
                &&& final(self).config == old(self).config
                &&& final(self).metrics == old(self).metrics
                &&& final(self).progress == old(self).progress
                &&& final(self).callbacks == old(self).callbacks
                &&& final(self).deps == old(self).deps
                &&& final(self).queue == old(self).queue
                &&& final(self).pool == old(self).pool
            },
    {
        if self.shutdown {
            return Err(MakeParallelError::ShutdownInProgress);
        }
        let memory_ok = self.check_memory_ok();
        if !memory_ok {
            let lp = match self.config.memory_limit_percent {
                Some(p) => p,
                None => 0,
            };
            return Err(MakeParallelError::MemoryLimitExceeded { limit_percent: lp });
        }
        proof {
            lemma_fresh_label_not_active(
                self.active.view_ids(),
                self.counter.next as nat,
            );
        }
        let ghost before = self.active.view_ids();
        let id = self.counter.fresh_id();
        self.active.register_task(id.clone());
        proof {
            assert forall|i: int|
                0 <= i < self.active.view_ids().len() implies exists|k: nat|
                k < self.counter.next && #[trigger] self.active.view_ids()[i] == task_label(
                k,
            ) by {
                if i < before.len() {
                    assert(self.active.view_ids()[i] == before[i]);
                    let k = choose|k: nat|
                        k < old(self).counter.next && before[i] == task_label(k);
                    assert(k < self.counter.next && self.active.view_ids()[i] == task_label(k));
                } else {
                    let k = (self.counter.next - 1) as nat;
                    assert(self.active.view_ids()[i] == task_label(k));
                }
            }
        }
        Ok(id)
    }

    /// What a worker synthesizes instead of calling the operation when, just
    /// before the body would run, shutdown or cancellation is observed:
    /// shutdown takes precedence in the reason.
    pub fn worker_preflight(&self, cancel_requested: bool) -> (r: Option<String>)
        ensures
            r is Some <==> (self.shutdown || cancel_requested),
            self.shutdown ==> (r matches Some(m) && m@ == "Task cancelled: shutdown requested"@),
            !self.shutdown && cancel_requested ==> (r matches Some(m) && m@
                == "Task was cancelled or timed out"@),
    {
        if self.shutdown {
            Some(String::from_str("Task cancelled: shutdown requested"))
        } else if cancel_requested {
            Some(String::from_str("Task was cancelled or timed out"))
        } else {
            None
        }
    }

    /// Everything a worker does after the operation, on every exit path:
    /// record the completion under the operation name (a cancellation counts
    /// as a failure), deregister the task, and clear its progress entry,
    /// progress callback and dependency edge.
    pub fn finish_task(&mut self, task_id: &str, func_name: &str, duration_ms: u64, success: bool)
        requires
            old(self).wf(),
        ensures
            final(self).wf(),
            final(self).active.view_ids() == crate::registry::without_id(
                old(self).active.view_ids(),
                task_id@,
            ),
            !final(self).active.view_ids().contains(task_id@),
            final(self).progress.contents() == old(self).progress.contents().remove(task_id@),
            final(self).callbacks@ == old(self).callbacks@.remove(task_id@),
            final(self).deps.edges@ == old(self).deps.edges@.remove(task_id@),
            final(self).deps.results@ == old(self).deps.results@,
            final(self).deps.errors@ == old(self).deps.errors@,
            final(self).metrics.contents() == old(self).metrics.contents().insert(
                func_name@,
                crate::metrics::bump(
                    if old(self).metrics.contents().contains_key(func_name@) {
                        old(self).metrics.contents()[func_name@]
                    } else {
                        crate::metrics::PerformanceMetrics {
                            total_tasks: 0u64,
                            completed_tasks: 0u64,
                            failed_tasks: 0u64,
                            total_execution_time_ms: 0u64,
                        }
                    },
                    duration_ms,
                    success,
                ),
            ),
            final(self).metrics.global_total == crate::metrics::sat_add(
                old(self).metrics.global_total,
                1,
            ),
            final(self).shutdown == old(self).shutdown,
            final(self).priority_worker_running == old(self).priority_worker_running,
            final(self).counter == old(self).counter,
            final(self).config == old(self).config,
            final(self).queue == old(self).queue,
            final(self).pool == old(self).pool,
    {
        self.metrics.record_task_execution(func_name, duration_ms, success);
        self.active.unregister_task(task_id);
        self.progress.clear_task(task_id);
        self.callbacks.remove(task_id);
        self.deps.remove_dependencies(task_id);
        proof {
            crate::registry::lemma_without_id_gone(old(self).active.view_ids(), task_id@);
            lemma_without_id_subset(old(self).active.view_ids(), task_id@);
            assert forall|i: int|
                0 <= i < self.active.view_ids().len() implies exists|k: nat|
                k < self.counter.next && #[trigger] self.active.view_ids()[i] == task_label(
                k,
            ) by {
                let x = self.active.view_ids()[i];
                assert(self.active.view_ids().contains(x));
                assert(old(self).active.view_ids().contains(x));
                let j = choose|j: int|
                    0 <= j < old(self).active.view_ids().len() && old(self).active.view_ids()[j]
                        == x;
                let k = choose|k: nat|
                    k < old(self).counter.next && old(self).active.view_ids()[j] == task_label(k);
                assert(k < self.counter.next && x == task_label(k));
            }
        }
    }

    /// Registers a progress callback for a task.
    pub fn register_progress_callback(&mut self, task_id: String)
        requires
            old(self).wf(),
        ensures
            final(self).wf(),
            final(self).callbacks@ == old(self).callbacks@.insert(task_id@, true),
            *final(self) == (Engine { callbacks: final(self).callbacks, ..*old(self) }),
    {
        self.callbacks.insert(task_id, true);
    }

    /// Unregisters a task's progress callback.
    pub fn unregister_progress_callback(&mut self, task_id: &str)
        requires
            old(self).wf(),
        ensures
            final(self).wf(),
            final(self).callbacks@ == old(self).callbacks@.remove(task_id@),
            *final(self) == (Engine { callbacks: final(self).callbacks, ..*old(self) }),
    {
        self.callbacks.remove(task_id);
    }

    /// Clears a task's progress entry and its progress callback.
    pub fn clear_task_progress(&mut self, task_id: &str)
        requires
            old(self).wf(),
        ensures
            final(self).wf(),
            final(self).progress.contents() == old(self).progress.contents().remove(task_id@),
            final(self).callbacks@ == old(self).callbacks@.remove(task_id@),
            *final(self) == (Engine {
                progress: final(self).progress,
                callbacks: final(self).callbacks,
                ..*old(self)
            }),
    {
        self.progress.clear_task(task_id);
        self.callbacks.remove(task_id);
    }

    /// Validates and stores a progress report. The value must be a fraction
    /// of completion (at most full, in millionths; the runtime rejects
    /// non-finite numbers before they reach this scale). The task is the one
    /// named explicitly, or the one the reporting context is running, and
    /// naming neither is an error. The report says whether a progress
    /// callback is registered, so the runtime can invoke it.
    pub fn report_progress(&mut self, value: u32, task_id: Option<String>, ctx: &CurrentTask) -> (r:
        Result<ProgressReport, MakeParallelError>)
        requires
            old(self).wf(),
        ensures
            final(self).wf(),
            !progress_valid(value) ==> (r matches Err(e) && e matches
                MakeParallelError::InvalidConfiguration { message } && message@
                == "progress must be between 0.0 and 1.0"@),
            progress_valid(value) && task_id is None && ctx.current is None ==> (r matches Err(e)
                && e matches MakeParallelError::InvalidConfiguration { message } && message@
                == "No task_id found. report_progress must be called from within a managed task, or you must provide task_id explicitly."@),
            r is Err ==> *final(self) == *old(self),
            progress_valid(value) && (task_id is Some || ctx.current is Some) ==> r is Ok,
            r matches Ok(rep) ==> {
                &&& progress_valid(value)
                &&& rep.task_id == (if task_id is Some {
                    task_id.unwrap()
                } else {
                    ctx.current.unwrap()
                })
                &&& final(self).progress.contents() == old(self).progress.contents().insert(
                    rep.task_id@,
                    value,
                )
                &&& rep.invoke_callback == old(self).callbacks@.contains_key(rep.task_id@)
                &&& *final(self) == (Engine { progress: final(self).progress, ..*old(self) })
            },
    {
        if value > crate::progress::PROGRESS_SCALE {
            return Err(
                MakeParallelError::InvalidConfiguration {
                    message: String::from_str("progress must be between 0.0 and 1.0"),
                },
            );
        }
        let resolved: String = match task_id {
            Some(id) => id,
            None => {
                match ctx.get_current_task_id() {
                    Some(id) => id,
                    None => {
                        return Err(
                            MakeParallelError::InvalidConfiguration {
                                message: String::from_str(
                                    "No task_id found. report_progress must be called from within a managed task, or you must provide task_id explicitly.",
                                ),
                            },
                        );
                    },
                }
            },
        };
        let invoke_callback = match self.callbacks.get(resolved.as_str()) {
            Some(_) => true,
            None => false,
        };
        self.progress.set(resolved.clone(), value);
        Ok(ProgressReport { task_id: resolved, invoke_callback })
    }

    /// Enqueues work under a priority; the consumer serves the highest
    /// priority first, equal priorities in submission order.
    pub fn enqueue_priority(&mut self, priority: i32, work: PriorityWork)
        requires
            old(self).wf(),
            old(self).queue.next_seq < u64::MAX,
        ensures
            final(self).wf(),
            final(self).queue.entries@ == old(self).queue.entries@.push(
                crate::priority::PriorityEntry {
                    priority,
                    seq: old(self).queue.next_seq,
                    item: work,
                },
            ),
            final(self).queue.next_seq == old(self).queue.next_seq + 1,
            *final(self) == (Engine { queue: final(self).queue, ..*old(self) }),
    {
        self.queue.push(priority, work);
    }

    /// Marks the priority consumer running; reports whether it already was,
    /// so only one consumer is ever started.
    pub fn start_priority_worker(&mut self) -> (r: bool)
        requires
            old(self).wf(),
        ensures
            final(self).wf(),
            r == old(self).priority_worker_running,
            final(self).priority_worker_running,
            *final(self) == (Engine { priority_worker_running: true, ..*old(self) }),
    {
        let was = self.priority_worker_running;
        self.priority_worker_running = true;
        was
    }

    /// Signals the priority consumer to stop after the item it already holds.
    pub fn stop_priority_worker(&mut self)
        requires
            old(self).wf(),
        ensures
            final(self).wf(),
            *final(self) == (Engine { priority_worker_running: false, ..*old(self) }),
    {
        self.priority_worker_running = false;
    }

    /// Flips the global shutdown flag: all dispatch admission now fails fast,
    /// and the priority consumer is signaled to stop after the item it
    /// already popped.
    pub fn shutdown_request(&mut self)
        requires
            old(self).wf(),
        ensures
            final(self).wf(),
            final(self).shutdown,
            !final(self).priority_worker_running,
            *final(self) == (Engine {
                shutdown: true,
                priority_worker_running: false,
                ..*old(self)
            }),
    {
        self.shutdown = true;
        self.priority_worker_running = false;
    }

    /// Clears the shutdown flag so tests can reuse the engine.
    pub fn reset_shutdown(&mut self)
        requires
            old(self).wf(),
        ensures
            final(self).wf(),
            !final(self).shutdown,
            *final(self) == (Engine { shutdown: false, ..*old(self) }),
    {
        self.shutdown = false;
    }

    /// One poll of the shutdown drain: a clean drain exactly when the
    /// registry is empty; a timed-out drain exactly when tasks are still
    /// active past the deadline; otherwise keep polling.
    pub fn drain_step(&self, elapsed_ms: u64, timeout_ms: u64) -> (r: DrainPoll)
        ensures
            r is Done <==> self.active.view_ids().len() == 0,
            r is TimedOut <==> (self.active.view_ids().len() > 0 && elapsed_ms >= timeout_ms),
            r is Wait <==> (self.active.view_ids().len() > 0 && elapsed_ms < timeout_ms),
    {
        if self.active.count() == 0 {
            DrainPoll::Done
        } else if elapsed_ms >= timeout_ms {
            DrainPoll::TimedOut
        } else {
            DrainPoll::Wait
        }
    }

    /// Records the worker pool configuration; the runtime builds the actual
    /// pool from it.
    pub fn configure_thread_pool(&mut self, num_threads: Option<usize>, stack_size: Option<usize>)
        requires
            old(self).wf(),
        ensures
            final(self).wf(),
            final(self).pool == (PoolConfig { configured: true, num_threads, stack_size }),
            *final(self) == (Engine { pool: final(self).pool, ..*old(self) }),
    {
        self.pool = PoolConfig { configured: true, num_threads, stack_size };
    }

    /// Whether a custom pool was configured, and the thread count in effect:
    /// the configured count, or the runtime default where none was set.
    pub fn get_thread_pool_info(&self) -> (r: (bool, usize))
        ensures
            r.0 == self.pool.configured,
            self.pool.num_threads matches Some(n) ==> r.1 == n,
    {
        let threads = match self.pool.num_threads {
            Some(n) => n,
            None => rayon_num_threads(),
        };
        (self.pool.configured, threads)
    }
}

/// Builds the failure record a worker wraps an operation failure in.
pub fn wrap_failure(
    func_name: &str,
    task_id: &str,
    elapsed_ms: u64,
    error_message: String,
    error_type: String,
) -> (r: TaskError)
    ensures
        r.task_name@ == func_name@,
        r.task_id@ == task_id@,
        r.elapsed_ms == elapsed_ms,
        r.error_message == error_message,
        r.error_type == error_type,
{
    TaskError {
        task_name: String::from_str(func_name),
        elapsed_ms,
        error_message,
        error_type,
        task_id: String::from_str(task_id),
    }
}

/// Builds the cancellation outcome a worker synthesizes instead of calling
/// the operation.
pub fn make_cancellation_error(func_name: &str, task_id: &str, elapsed_ms: u64, reason: String) -> (r:
    TaskError)
    ensures
        r.task_name@ == func_name@,
        r.task_id@ == task_id@,
        r.elapsed_ms == elapsed_ms,
        r.error_message == reason,
        r.error_type@ == "CancellationError"@,
{
    TaskError {
        task_name: String::from_str(func_name),
        elapsed_ms,
        error_message: reason,
        error_type: String::from_str("CancellationError"),
        task_id: String::from_str(task_id),
    }
}

/// Relies on rayon::current_num_threads: how many threads the current pool
/// has — a property of the runtime, so nothing is promised of the value.
#[verifier::external_body]
fn rayon_num_threads() -> usize {
    rayon::current_num_threads()
}

} // verus!
