//! The caller-facing handle of a task: the consumer end of the task's result
//! channel, a write-once result cache (the first arrival wins and is memoized
//! for every later read), a cancellation request flag, task identity, an
//! optional timeout, and a metadata map.
//!
//! On the race between `cancel` and a genuine late result, this engine lets
//! completion win: cancelling marks the handle complete but leaves the cache
//! alone, so a real outcome that still arrives is cached and returned as if
//! the cancel had never been observed. A dedicated test pins this choice.

use vstd::prelude::*;
use crossbeam::channel::Receiver;
use crate::values::TaskOutcome;
use crate::errors::TaskError;
use crate::channels::try_recv_outcome;
use crate::channels::recv_outcome;
use crate::progress::ProgressStore;
use crate::table::StringTable;
use vstd::string::StringExecFns;

verus! {

/// Copies an outcome.
pub fn clone_outcome(o: &TaskOutcome) -> (r: TaskOutcome)
    ensures
        r == *o,
{
    match o {
        Ok(v) => Ok(v.clone()),
        Err(e) => Err(e.clone()),
    }
}

/// A handle on one submitted task.
pub struct TaskHandle {
    pub task_id: String,
    pub func_name: String,
    pub timeout_ms: Option<u64>,
    pub start_ms: u64,
    pub receiver: Receiver<TaskOutcome>,
    pub complete: bool,
    pub cancel_requested: bool,
    pub cache: Option<TaskOutcome>,
    pub metadata: StringTable<String>,
    pub has_on_complete: bool,
    pub has_on_error: bool,
    pub has_on_progress: bool,
}

/// Everything a result's arrival leaves alone: identity, configuration,
/// metadata and callback registrations.
pub open spec fn same_identity(a: TaskHandle, b: TaskHandle) -> bool {
    &&& a.task_id == b.task_id
    &&& a.func_name == b.func_name
    &&& a.timeout_ms == b.timeout_ms
    &&& a.start_ms == b.start_ms
    &&& a.receiver == b.receiver
    &&& a.metadata == b.metadata
    &&& a.has_on_complete == b.has_on_complete
    &&& a.has_on_error == b.has_on_error
    &&& a.has_on_progress == b.has_on_progress
}

/// What a blocking read promises: the identity is untouched; a cached outcome
/// is returned as it is, unchanged; with nothing cached, whatever the channel
/// delivered is cached and returned, and a closed channel yields a
/// channel-failure outcome, leaving the handle as it was.
pub open spec fn get_post(a: TaskHandle, b: TaskHandle, r: TaskOutcome) -> bool {
    &&& same_identity(a, b)
    &&& b.cancel_requested == a.cancel_requested
    &&& (a.cache matches Some(c) ==> r == c && b.cache == a.cache && b.complete == a.complete)
    &&& (a.cache is None ==> match b.cache {
        Some(o) => r == o && b.complete,
        None => {
            &&& b.complete == a.complete
            &&& r matches Err(e)
            &&& e.error_type@ == "ChannelError"@
            &&& e.error_message@ == "task result channel closed unexpectedly"@
            &&& e.task_id == a.task_id
            &&& e.task_name == a.func_name
        },
    })
}

impl TaskHandle {
    /// Well-formed: the metadata table is.
    pub open spec fn wf(self) -> bool {
        self.metadata.wf()
    }

    /// A fresh handle for a task that has just been admitted: nothing
    /// received, nothing cached, not cancelled.
    pub fn new(
        task_id: String,
        func_name: String,
        timeout_ms: Option<u64>,
        start_ms: u64,
        receiver: Receiver<TaskOutcome>,
    ) -> (r: TaskHandle)
        ensures
            r.wf(),
            r.task_id == task_id,
            r.func_name == func_name,
            r.timeout_ms == timeout_ms,
            r.start_ms == start_ms,
            r.receiver == receiver,
            !r.complete,
            !r.cancel_requested,
            r.cache is None,
            r.metadata.contents() == Map::<Seq<char>, String>::empty(),
            r.metadata.key_seq() == Seq::<Seq<char>>::empty(),
            !r.has_on_complete && !r.has_on_error && !r.has_on_progress,
    {
        TaskHandle {
            task_id,
            func_name,
            timeout_ms,
            start_ms,
            receiver,
            complete: false,
            cancel_requested: false,
            cache: None,
            metadata: StringTable::new(),
            has_on_complete: false,
            has_on_error: false,
            has_on_progress: false,
        }
    }

    /// Whether a result has been observed (or the handle marked complete).
    pub fn is_ready(&self) -> (r: bool)
        ensures
            r == self.complete,
    {
        self.complete
    }

    /// Non-blocking read: the cached outcome if one was already observed;
    /// otherwise whatever the channel has ready now, which is then cached —
    /// the first arrival wins and every later read returns it unchanged.
    /// Nothing ready gives nothing and changes nothing.
    pub fn try_get(&mut self) -> (r: Option<TaskOutcome>)
        requires
            old(self).wf(),
        ensures
            final(self).wf(),
            same_identity(*old(self), *final(self)),
            final(self).cancel_requested == old(self).cancel_requested,
            old(self).cache matches Some(c) ==> r == Some(c) && final(self).cache == old(self).cache
                && final(self).complete == old(self).complete,
            old(self).cache is None && r is Some ==> final(self).cache == r && final(self).complete,
            old(self).cache is None && r is None ==> final(self).cache is None
                && final(self).complete == old(self).complete,
    {
        match &self.cache {
            Some(c) => Some(clone_outcome(c)),
            None => {
                match try_recv_outcome(&self.receiver) {
                    Some(outcome) => {
                        self.complete = true;
                        let returned = clone_outcome(&outcome);
                        self.cache = Some(outcome);
                        Some(returned)
                    },
                    None => None,
                }
            },
        }
    }

    /// Blocking read: the cached outcome if one was already observed;
    /// otherwise waits on the channel, caches what arrives, and returns it.
    /// A channel that closes without ever delivering yields a channel-failure
    /// outcome and leaves the handle unchanged, so a retry is possible.
    pub fn get(&mut self) -> (r: TaskOutcome)
        requires
            old(self).wf(),
        ensures
            final(self).wf(),
            get_post(*old(self), *final(self), r),
    {
        match &self.cache {
            Some(c) => clone_outcome(c),
            None => {
                match recv_outcome(&self.receiver) {
                    Some(outcome) => {
                        self.complete = true;
                        let returned = clone_outcome(&outcome);
                        self.cache = Some(outcome);
                        returned
                    },
                    None => {
                        Err(
                            TaskError {
                                task_name: self.func_name.clone(),
                                elapsed_ms: 0,
                                error_message: String::from_str(
                                    "task result channel closed unexpectedly",
                                ),
                                error_type: String::from_str("ChannelError"),
                                task_id: self.task_id.clone(),
                            },
                        )
                    },
                }
            },
        }
    }

    /// Requests cancellation: best-effort and cooperative. The handle is
    /// marked complete at once, but the worker is not stopped, and a genuine
    /// result that still arrives wins over the cancel (the cache is left
    /// alone).
    pub fn cancel(&mut self)
        ensures
            same_identity(*old(self), *final(self)),
            final(self).cancel_requested,
            final(self).complete,
            final(self).cache == old(self).cache,
    {
        self.cancel_requested = true;
        self.complete = true;
    }

    /// Whether cancellation was requested.
    pub fn is_cancelled(&self) -> (r: bool)
        ensures
            r == self.cancel_requested,
    {
        self.cancel_requested
    }

    /// Milliseconds since the task started, given the current clock reading.
    pub fn elapsed_ms(&self, now_ms: u64) -> (r: u64)
        ensures
            r == if now_ms >= self.start_ms {
                now_ms - self.start_ms
            } else {
                0int
            },
    {
        if now_ms >= self.start_ms {
            now_ms - self.start_ms
        } else {
            0
        }
    }

    /// The name of the operation.
    pub fn get_name(&self) -> (r: String)
        ensures
            r == self.func_name,
    {
        self.func_name.clone()
    }

    /// The task's unique id.
    pub fn get_task_id(&self) -> (r: String)
        ensures
            r == self.task_id,
    {
        self.task_id.clone()
    }

    /// The submission's timeout, if one was given.
    pub fn get_timeout(&self) -> (r: Option<u64>)
        ensures
            r == self.timeout_ms,
    {
        self.timeout_ms
    }

    /// Sets one metadata entry, replacing any prior value under the key.
    pub fn set_metadata(&mut self, key: String, value: String)
        requires
            old(self).wf(),
        ensures
            final(self).wf(),
            final(self).metadata.contents() == old(self).metadata.contents().insert(key@, value),
            final(self).complete == old(self).complete,
            final(self).cache == old(self).cache,
            final(self).cancel_requested == old(self).cancel_requested,
            final(self).task_id == old(self).task_id,
            final(self).func_name == old(self).func_name,
    {
        self.metadata.set(key, value);
    }

    /// One metadata entry, if set.
    pub fn get_metadata(&self, key: &str) -> (r: Option<String>)
        ensures
            r == (if self.metadata.contents().contains_key(key@) {
                Some(self.metadata.contents()[key@])
            } else {
                None
            }),
    {
        match self.metadata.get(key) {
            Some(v) => Some(v.clone()),
            None => None,
        }
    }

    /// Every metadata entry, in first-insertion order.
    pub fn get_all_metadata(&self) -> (r: Vec<(String, String)>)
        requires
            self.wf(),
        ensures
            r@.len() == self.metadata.key_seq().len(),
            forall|i: int|
                0 <= i < r@.len() ==> (#[trigger] r@[i]).0@ == self.metadata.key_seq()[i]
                    && self.metadata.contents().contains_key(self.metadata.key_seq()[i])
                    && r@[i].1 == self.metadata.contents()[self.metadata.key_seq()[i]],
    {
        let n = self.metadata.len();
        let mut out: Vec<(String, String)> = Vec::new();
        let mut i: usize = 0;
        while i < n
            invariant
                i <= n,
                n == self.metadata.key_seq().len(),
                self.metadata.wf(),
                out@.len() == i,
                forall|k: int|
                    0 <= k < i ==> (#[trigger] out@[k]).0@ == self.metadata.key_seq()[k]
                        && self.metadata.contents().contains_key(self.metadata.key_seq()[k])
                        && out@[k].1 == self.metadata.contents()[self.metadata.key_seq()[k]],
            decreases n - i,
        {
            let key = self.metadata.key_at(i);
            proof {
                assert(self.metadata.key_seq().contains(self.metadata.key_seq()[i as int]));
            }
            let value = match self.metadata.get(key.as_str()) {
                Some(v) => v.clone(),
                None => String::new(),
            };
            out.push((key.clone(), value));
            i = i + 1;
        }
        out
    }

    /// Registers the completion callback (the registration replaces any
    /// earlier one; the callback itself lives with the runtime).
    pub fn on_complete(&mut self)
        ensures
            *final(self) == (TaskHandle { has_on_complete: true, ..*old(self) }),
    {
        self.has_on_complete = true;
    }

    /// Registers the error callback.
    pub fn on_error(&mut self)
        ensures
            *final(self) == (TaskHandle { has_on_error: true, ..*old(self) }),
    {
        self.has_on_error = true;
    }

    /// Registers the progress callback.
    pub fn on_progress(&mut self)
        ensures
            *final(self) == (TaskHandle { has_on_progress: true, ..*old(self) }),
    {
        self.has_on_progress = true;
    }

    /// The task's last reported progress, in millionths, defaulting to zero.
    pub fn get_progress(&self, store: &ProgressStore) -> (r: u32)
        ensures
            r == (if store.contents().contains_key(self.task_id@) {
                store.contents()[self.task_id@]
            } else {
                0u32
            }),
    {
        store.get_or_zero(self.task_id.as_str())
    }
}

/// The reduced handle of pool and fast dispatch: readiness and result only —
/// no cancellation, timeout, callbacks or metadata — optimized for many short
/// tasks with low per-task overhead. Its cache behaves as the full handle's.
pub struct FastHandle {
    pub receiver: Receiver<TaskOutcome>,
    pub complete: bool,
    pub cache: Option<TaskOutcome>,
}

impl FastHandle {
    /// A fresh reduced handle on the given channel.
    pub fn new(receiver: Receiver<TaskOutcome>) -> (r: FastHandle)
        ensures
            r.receiver == receiver,
            !r.complete,
            r.cache is None,
    {
        FastHandle { receiver, complete: false, cache: None }
    }

    /// Whether a result has been observed.
    pub fn is_ready(&self) -> (r: bool)
        ensures
            r == self.complete,
    {
        self.complete
    }

    /// Non-blocking read with the write-once cache of the full handle.
    pub fn try_get(&mut self) -> (r: Option<TaskOutcome>)
        ensures
            final(self).receiver == old(self).receiver,
            old(self).cache matches Some(c) ==> r == Some(c) && final(self).cache == old(self).cache
                && final(self).complete == old(self).complete,
            old(self).cache is None && r is Some ==> final(self).cache == r && final(self).complete,
            old(self).cache is None && r is None ==> final(self).cache is None
                && final(self).complete == old(self).complete,
    {
        match &self.cache {
            Some(c) => Some(clone_outcome(c)),
            None => {
                match try_recv_outcome(&self.receiver) {
                    Some(outcome) => {
                        self.complete = true;
                        let returned = clone_outcome(&outcome);
                        self.cache = Some(outcome);
                        Some(returned)
                    },
                    None => None,
                }
            },
        }
    }

    /// Blocking read with the write-once cache of the full handle.
    pub fn get(&mut self) -> (r: TaskOutcome)
        ensures
            final(self).receiver == old(self).receiver,
            old(self).cache matches Some(c) ==> r == c && final(self).cache == old(self).cache
                && final(self).complete == old(self).complete,
            old(self).cache is None ==> match final(self).cache {
                Some(o) => r == o && final(self).complete,
                None => final(self).complete == old(self).complete && (r matches Err(e)
                    && e.error_type@ == "ChannelError"@),
            },
    {
        match &self.cache {
            Some(c) => clone_outcome(c),
            None => {
                match recv_outcome(&self.receiver) {
                    Some(outcome) => {
                        self.complete = true;
                        let returned = clone_outcome(&outcome);
                        self.cache = Some(outcome);
                        returned
                    },
                    None => {
                        Err(
                            TaskError {
                                task_name: String::new(),
                                elapsed_ms: 0,
                                error_message: String::from_str(
                                    "task result channel closed unexpectedly",
                                ),
                                error_type: String::from_str("ChannelError"),
                                task_id: String::new(),
                            },
                        )
                    },
                }
            },
        }
    }
}

} // verus!
