//! The dependency resolver: published results and errors of
//! dependency-capable tasks, the dependency edges of pending tasks, and the
//! check a worker polls before running a dependent task's body.
//!
//! Prerequisites are examined in list order. The first one that is not
//! settled decides: a stored error aborts the dependent with a failure naming
//! that prerequisite (its own body never runs), a missing result keeps the
//! worker polling, and only when every prerequisite has a stored value are
//! the values collected, in order, for the dependent's leading argument.

use vstd::prelude::*;
use vstd::hash_map::StringHashMap;
use vstd::string::StringExecFns;
use crate::values::TaskValue;
use crate::registry::views_of;

verus! {

/// A dependency wait gives up after this many polls (ten minutes at one poll
/// per hundred milliseconds).
pub const MAX_DEP_POLLS: u64 = 6000;

/// The poll interval of a dependency wait, in milliseconds.
pub const DEP_POLL_INTERVAL_MS: u64 = 100;

/// The stores the resolver reads and the edges it bookkeeps.
pub struct DependencyTracker {
    pub results: StringHashMap<TaskValue>,
    pub errors: StringHashMap<String>,
    pub edges: StringHashMap<Vec<String>>,
}

/// A prerequisite is settled for the dependent's purposes only when it has a
/// stored result and no stored error (a stored error always aborts first).
pub open spec fn dep_settled(
    results: Map<Seq<char>, TaskValue>,
    errors: Map<Seq<char>, String>,
    d: Seq<char>,
) -> bool {
    results.contains_key(d) && !errors.contains_key(d)
}

/// What one poll of the prerequisites found.
pub enum PrereqCheck {
    /// Every prerequisite has a stored value; here they are, in list order.
    Ready { values: Vec<TaskValue> },
    /// A prerequisite has a stored error, and no earlier one was unsettled.
    Failed { dep_id: String, message: String },
    /// A prerequisite has no stored result yet, and no earlier one failed.
    Pending { dep_id: String },
}

/// What a poll of prerequisites `ds` against the given stores may report:
/// ready only with every prerequisite settled and the stored values in list
/// order; failed only naming a prerequisite with a stored error and its
/// message, every earlier one settled; pending only naming a prerequisite
/// with neither result nor error, every earlier one settled.
pub open spec fn prereq_check_post(
    results: Map<Seq<char>, TaskValue>,
    errors: Map<Seq<char>, String>,
    ds: Seq<Seq<char>>,
    r: PrereqCheck,
) -> bool {
    match r {
        PrereqCheck::Ready { values } => {
            &&& forall|i: int| 0 <= i < ds.len() ==> dep_settled(results, errors, #[trigger] ds[i])
            &&& values@.len() == ds.len()
            &&& forall|i: int| 0 <= i < ds.len() ==> #[trigger] values@[i] == results[ds[i]]
        },
        PrereqCheck::Failed { dep_id, message } => exists|i: int|
            {
                &&& 0 <= i < ds.len()
                &&& errors.contains_key(#[trigger] ds[i])
                &&& dep_id@ == ds[i]
                &&& message@ == errors[ds[i]]@
                &&& forall|j: int| 0 <= j < i ==> dep_settled(results, errors, #[trigger] ds[j])
            },
        PrereqCheck::Pending { dep_id } => exists|i: int|
            {
                &&& 0 <= i < ds.len()
                &&& !errors.contains_key(#[trigger] ds[i])
                &&& !results.contains_key(ds[i])
                &&& dep_id@ == ds[i]
                &&& forall|j: int| 0 <= j < i ==> dep_settled(results, errors, #[trigger] ds[j])
            },
    }
}

impl DependencyTracker {
    /// Empty stores and no edges.
    pub fn new() -> (r: Self)
        ensures
            r.results@ == Map::<Seq<char>, TaskValue>::empty(),
            r.errors@ == Map::<Seq<char>, String>::empty(),
            r.edges@ == Map::<Seq<char>, Vec<String>>::empty(),
    {
        DependencyTracker {
            results: StringHashMap::new(),
            errors: StringHashMap::new(),
            edges: StringHashMap::new(),
        }
    }

    /// Publishes a task's result for downstream dependents.
    pub fn store_task_result(&mut self, task_id: String, value: TaskValue)
        ensures
            final(self).results@ == old(self).results@.insert(task_id@, value),
            final(self).errors@ == old(self).errors@,
            final(self).edges@ == old(self).edges@,
    {
        self.results.insert(task_id, value);
    }

    /// Removes a consumed result.
    pub fn clear_task_result(&mut self, task_id: &str)
        ensures
            final(self).results@ == old(self).results@.remove(task_id@),
            final(self).errors@ == old(self).errors@,
            final(self).edges@ == old(self).edges@,
    {
        self.results.remove(task_id);
    }

    /// Publishes a task's failure for dependency failure propagation.
    pub fn store_task_error(&mut self, task_id: String, error: String)
        ensures
            final(self).errors@ == old(self).errors@.insert(task_id@, error),
            final(self).results@ == old(self).results@,
            final(self).edges@ == old(self).edges@,
    {
        self.errors.insert(task_id, error);
    }

    /// Removes a consumed error.
    pub fn clear_task_error(&mut self, task_id: &str)
        ensures
            final(self).errors@ == old(self).errors@.remove(task_id@),
            final(self).results@ == old(self).results@,
            final(self).edges@ == old(self).edges@,
    {
        self.errors.remove(task_id);
    }

    /// Records which prerequisites a pending task waits on.
    pub fn register_dependencies(&mut self, task_id: String, dep_ids: Vec<String>)
        ensures
            final(self).edges@ == old(self).edges@.insert(task_id@, dep_ids),
            final(self).results@ == old(self).results@,
            final(self).errors@ == old(self).errors@,
    {
        self.edges.insert(task_id, dep_ids);
    }

    /// Removes a finished task's dependency edge.
    pub fn remove_dependencies(&mut self, task_id: &str)
        ensures
            final(self).edges@ == old(self).edges@.remove(task_id@),
            final(self).results@ == old(self).results@,
            final(self).errors@ == old(self).errors@,
    {
        self.edges.remove(task_id);
    }

    /// One poll over the prerequisites, in list order: the first stored error
    /// aborts, the first missing result keeps the dependent pending, and a
    /// fully settled list collects the stored values in order.
    pub fn check_prerequisites(&self, dep_ids: &Vec<String>) -> (r: PrereqCheck)
        ensures
            prereq_check_post(self.results@, self.errors@, views_of(dep_ids@), r),
    {
        let ghost ds = views_of(dep_ids@);
        let n = dep_ids.len();
        let mut values: Vec<TaskValue> = Vec::new();
        let mut i: usize = 0;
        while i < n
            invariant
                i <= n,
                n == ds.len(),
                ds == views_of(dep_ids@),
                values@.len() == i,
                forall|k: int|
                    0 <= k < i ==> dep_settled(self.results@, self.errors@, #[trigger] ds[k]),
                forall|k: int| 0 <= k < i ==> #[trigger] values@[k] == self.results@[ds[k]],
            decreases n - i,
        {
            let dep = &dep_ids[i];
            proof {
                assert(views_of(dep_ids@)[i as int] == dep_ids@[i as int]@);
            }
            match self.errors.get(dep.as_str()) {
                Some(msg) => {
                    return PrereqCheck::Failed { dep_id: dep.clone(), message: msg.clone() };
                },
                None => {},
            }
            match self.results.get(dep.as_str()) {
                Some(v) => {
                    values.push(v.clone());
                },
                None => {
                    return PrereqCheck::Pending { dep_id: dep.clone() };
                },
            }
            i = i + 1;
        }
        PrereqCheck::Ready { values }
    }
}

/// The message a dependent fails with when a prerequisite failed.
pub fn dependency_failure_message(dep_id: &str, error: &str) -> (r: String)
    ensures
        r@ == "Dependency "@ + dep_id@ + " failed: "@ + error@,
{
    let mut s = String::from_str("Dependency ");
    s.append(dep_id);
    s.append(" failed: ");
    s.append(error);
    proof {
        assert(s@ =~= "Dependency "@ + dep_id@ + " failed: "@ + error@);
    }
    s
}

/// The message a dependent fails with when a prerequisite never settled.
pub fn dependency_timeout_message(dep_id: &str) -> (r: String)
    ensures
        r@ == "Dependency "@ + dep_id@ + " timed out after 10 minutes"@,
{
    let mut s = String::from_str("Dependency ");
    s.append(dep_id);
    s.append(" timed out after 10 minutes");
    proof {
        assert(s@ =~= "Dependency "@ + dep_id@ + " timed out after 10 minutes"@);
    }
    s
}

/// Why a dependency wait was abandoned.
pub enum DepAbort {
    /// Shutdown was requested mid-wait.
    ShutdownRequested,
    /// A prerequisite failed; its id and stored message.
    DependencyFailed { dep_id: String, message: String },
    /// The polling budget ran out waiting on this prerequisite.
    DependencyTimeout { dep_id: String },
}

/// What one round of the dependency wait does next.
pub enum DepWait {
    /// Every prerequisite settled: run the body with these values.
    Proceed { values: Vec<TaskValue> },
    /// Abandon the task without running its body.
    Abort { reason: DepAbort },
    /// Sleep one poll interval and ask again.
    Sleep,
}

impl DependencyTracker {
    /// One round of the bounded dependency wait: shutdown aborts first, then
    /// a failed prerequisite, then an exhausted polling budget; otherwise the
    /// worker proceeds when everything is settled and sleeps when not.
    pub fn dependency_wait_step(&self, dep_ids: &Vec<String>, shutdown: bool, polls: u64) -> (r:
        DepWait)
        ensures
            shutdown <==> r matches DepWait::Abort { reason: DepAbort::ShutdownRequested },
            r matches DepWait::Abort { reason: DepAbort::DependencyFailed { dep_id, message } }
                ==> exists|i: int|
                {
                    &&& 0 <= i < views_of(dep_ids@).len()
                    &&& self.errors@.contains_key(#[trigger] views_of(dep_ids@)[i])
                    &&& dep_id@ == views_of(dep_ids@)[i]
                    &&& message@ == self.errors@[views_of(dep_ids@)[i]]@
                },
            r matches DepWait::Proceed { values } ==> {
                &&& forall|i: int|
                    0 <= i < views_of(dep_ids@).len() ==> dep_settled(
                        self.results@,
                        self.errors@,
                        #[trigger] views_of(dep_ids@)[i],
                    )
                &&& values@.len() == views_of(dep_ids@).len()
                &&& forall|i: int|
                    0 <= i < views_of(dep_ids@).len() ==> #[trigger] values@[i]
                        == self.results@[views_of(dep_ids@)[i]]
            },
            r is Sleep ==> polls < MAX_DEP_POLLS,
            r matches DepWait::Abort { reason: DepAbort::DependencyTimeout { dep_id } } ==> (
            polls >= MAX_DEP_POLLS && !self.results@.contains_key(dep_id@)
                && !self.errors@.contains_key(dep_id@)),
    {
        if shutdown {
            return DepWait::Abort { reason: DepAbort::ShutdownRequested };
        }
        match self.check_prerequisites(dep_ids) {
            PrereqCheck::Ready { values } => DepWait::Proceed { values },
            PrereqCheck::Failed { dep_id, message } => DepWait::Abort {
                reason: DepAbort::DependencyFailed { dep_id, message },
            },
            PrereqCheck::Pending { dep_id } => {
                if polls >= MAX_DEP_POLLS {
                    DepWait::Abort { reason: DepAbort::DependencyTimeout { dep_id } }
                } else {
                    DepWait::Sleep
                }
            },
        }
    }
}

} // verus!
