//! The submission cores of the three dispatch strategies. Each runs the
//! shared admission sequence (shutdown fast-fail, memory ceiling, unique id,
//! registration), creates the result channel, and hands back the caller's
//! handle together with the ticket the runtime gives its worker: which task
//! to run, under what name, where to send the outcome, and which
//! prerequisites to resolve first. The slot wait, the worker threads, the
//! timeout timer and the sleeps belong to the runtime, which drives them with
//! the engine's step functions.

use vstd::prelude::*;
use crossbeam::channel::Sender;
use crate::channels::outcome_channel;
use crate::engine::Engine;
use crate::engine::PriorityWork;
use crate::engine::same_but_monitor;
use crate::errors::MakeParallelError;
use crate::handle::TaskHandle;
use crate::handle::FastHandle;
use crate::text::task_label;
use crate::values::TaskOutcome;

verus! {

/// What the runtime hands the worker of a detached or dependent task.
pub struct WorkerTicket {
    pub task_id: String,
    pub func_name: String,
    pub sender: Sender<TaskOutcome>,
    pub dep_ids: Vec<String>,
}

/// Submission core of detached-thread dispatch, dependency-capable: the
/// shared admission sequence, then dependency-edge bookkeeping for a nonempty
/// prerequisite list, a fresh result channel, and the full-featured handle.
/// The runtime runs its slot wait before this call and spawns the worker
/// after it.
pub fn submit_task(
    engine: &mut Engine,
    func_name: String,
    timeout_ms: Option<u64>,
    now_ms: u64,
    dep_ids: Vec<String>,
) -> (r: Result<(TaskHandle, WorkerTicket), MakeParallelError>)
    requires
        old(engine).wf(),
        old(engine).counter.next < u64::MAX,
    ensures
        final(engine).wf(),
        old(engine).shutdown <==> (r matches Err(e) && e is ShutdownInProgress),
        !old(engine).shutdown && old(engine).config.memory_limit_percent is None ==> r is Ok,
        r is Err ==> same_but_monitor(*old(engine), *final(engine)),
        r matches Ok((h, t)) ==> {
            &&& h.task_id@ == task_label(old(engine).counter.next as nat)
            &&& t.task_id == h.task_id
            &&& h.func_name == func_name
            &&& t.func_name == func_name
            &&& h.timeout_ms == timeout_ms
            &&& h.start_ms == now_ms
            &&& !h.complete && !h.cancel_requested && h.cache is None
            &&& h.wf()
            &&& t.dep_ids == dep_ids
            &&& !old(engine).active.view_ids().contains(h.task_id@)
            &&& final(engine).active.view_ids() == old(engine).active.view_ids().push(h.task_id@)
            &&& final(engine).counter.next == old(engine).counter.next + 1
            &&& (dep_ids@.len() == 0 ==> final(engine).deps.edges@ == old(engine).deps.edges@)
            &&& (dep_ids@.len() > 0 ==> exists|v: Vec<String>|
                final(engine).deps.edges@ == old(engine).deps.edges@.insert(h.task_id@, v)
                    && (#[trigger] v@) == dep_ids@)
            &&& final(engine).deps.results@ == old(engine).deps.results@
            &&& final(engine).deps.errors@ == old(engine).deps.errors@
            &&& final(engine).shutdown == old(engine).shutdown
            &&& final(engine).config == old(engine).config
            &&& final(engine).metrics == old(engine).metrics
            &&& final(engine).progress == old(engine).progress
            &&& final(engine).callbacks == old(engine).callbacks
            &&& final(engine).queue == old(engine).queue
        },
{
    let task_id = match engine.admit_task() {
        Ok(id) => id,
        Err(e) => {
            return Err(e);
        },
    };
    if dep_ids.len() > 0 {
        engine.deps.register_dependencies(task_id.clone(), dep_ids.clone());
    }
    let (sender, receiver) = outcome_channel();
    let handle = TaskHandle::new(
        task_id.clone(),
        func_name.clone(),
        timeout_ms,
        now_ms,
        receiver,
    );
    let ticket = WorkerTicket { task_id, func_name, sender, dep_ids };
    Ok((handle, ticket))
}

/// Submission core of priority dispatch: the shared admission sequence, then
/// an entry on the global priority queue under the caller-given priority.
/// The caller receives the full-featured handle; the runtime bridges the
/// consumer's outcome onto the returned sender and starts the single consumer
/// if it is not yet running.
pub fn submit_priority_task(
    engine: &mut Engine,
    func_name: String,
    priority: i32,
    timeout_ms: Option<u64>,
    now_ms: u64,
) -> (r: Result<(TaskHandle, Sender<TaskOutcome>), MakeParallelError>)
    requires
        old(engine).wf(),
        old(engine).counter.next < u64::MAX,
        old(engine).queue.next_seq < u64::MAX,
    ensures
        final(engine).wf(),
        old(engine).shutdown <==> (r matches Err(e) && e is ShutdownInProgress),
        !old(engine).shutdown && old(engine).config.memory_limit_percent is None ==> r is Ok,
        r is Err ==> same_but_monitor(*old(engine), *final(engine)),
        r matches Ok((h, s)) ==> {
            &&& h.task_id@ == task_label(old(engine).counter.next as nat)
            &&& h.func_name == func_name
            &&& h.timeout_ms == timeout_ms
            &&& h.start_ms == now_ms
            &&& !h.complete && !h.cancel_requested && h.cache is None
            &&& h.wf()
            &&& final(engine).active.view_ids() == old(engine).active.view_ids().push(h.task_id@)
            &&& final(engine).counter.next == old(engine).counter.next + 1
            &&& final(engine).queue.entries@.len() == old(engine).queue.entries@.len() + 1
            &&& final(engine).queue.entries@ == old(engine).queue.entries@.push(
                crate::priority::PriorityEntry {
                    priority,
                    seq: old(engine).queue.next_seq,
                    item: PriorityWork { task_id: h.task_id, func_name: h.func_name },
                },
            )
            &&& final(engine).shutdown == old(engine).shutdown
            &&& final(engine).config == old(engine).config
            &&& final(engine).metrics == old(engine).metrics
            &&& final(engine).progress == old(engine).progress
            &&& final(engine).deps == old(engine).deps
        },
{
    let task_id = match engine.admit_task() {
        Ok(id) => id,
        Err(e) => {
            return Err(e);
        },
    };
    let work = PriorityWork { task_id: task_id.clone(), func_name: func_name.clone() };
    engine.enqueue_priority(priority, work);
    let (sender, receiver) = outcome_channel();
    let handle = TaskHandle::new(task_id, func_name, timeout_ms, now_ms, receiver);
    Ok((handle, sender))
}

/// Submission core of pool and fast dispatch: no admission sequence (these
/// paths trade the gates away for low per-task overhead, as the reduced
/// handle trades away cancellation and callbacks) — just the channel and the
/// reduced handle. The runtime enqueues the work on its pool.
pub fn submit_fast() -> (r: (FastHandle, Sender<TaskOutcome>))
    ensures
        !r.0.complete,
        r.0.cache is None,
{
    let (sender, receiver) = outcome_channel();
    let handle = FastHandle::new(receiver);
    (handle, sender)
}

} // verus!
