//! Progress tracking: each task id's last reported fraction of completion,
//! held in a concurrent map, and the per-worker marker naming the task a
//! worker is currently running.
//!
//! Progress is stored in millionths of completion, so the engine's rules stay
//! in integer arithmetic: 0 is not started, `PROGRESS_SCALE` is done.

use vstd::prelude::*;
use dashmap::DashMap;

verus! {

/// Full completion, in millionths.
pub const PROGRESS_SCALE: u32 = 1000000;

/// A progress value is a fraction of completion: within 0 and 1, here scaled
/// to millionths.
pub open spec fn progress_valid(v: u32) -> bool {
    v <= PROGRESS_SCALE
}

#[verifier::external_type_specification]
#[verifier::external_body]
#[verifier::reject_recursive_types(K)]
#[verifier::reject_recursive_types(V)]
#[verifier::reject_recursive_types(S)]
pub struct ExDashMap<K, V, S>(DashMap<K, V, S>);

/// What the concurrent progress map holds: each task id's last reported
/// progress, in millionths.
pub uninterp spec fn progress_contents(m: DashMap<String, u32>) -> Map<Seq<char>, u32>;

/// Relies on dashmap::DashMap::new: a fresh map holds nothing.
#[verifier::external_body]
fn dash_new() -> (r: DashMap<String, u32>)
    ensures
        progress_contents(r).dom() =~= Set::<Seq<char>>::empty(),
{
    DashMap::new()
}

/// Relies on dashmap::DashMap::insert: maps the key to the value and returns
/// the value it replaced, if there was one.
#[verifier::external_body]
fn dash_insert(m: &mut DashMap<String, u32>, k: String, v: u32) -> (r: Option<u32>)
    ensures
        progress_contents(*final(m)) == progress_contents(*old(m)).insert(k@, v),
        r == (if progress_contents(*old(m)).contains_key(k@) {
            Some(progress_contents(*old(m))[k@])
        } else {
            None
        }),
{
    m.insert(k, v)
}

/// Relies on dashmap::DashMap::get: the value mapped at the key, copied out
/// of the guard it is returned in.
#[verifier::external_body]
fn dash_get(m: &DashMap<String, u32>, k: &str) -> (r: Option<u32>)
    ensures
        r == (if progress_contents(*m).contains_key(k@) {
            Some(progress_contents(*m)[k@])
        } else {
            None
        }),
{
    m.get(k).map(|entry| *entry.value())
}

/// Relies on dashmap::DashMap::remove: removes the entry if it exists and
/// returns it; the result tells whether it did.
#[verifier::external_body]
fn dash_remove(m: &mut DashMap<String, u32>, k: &str) -> (r: bool)
    ensures
        progress_contents(*final(m)) == progress_contents(*old(m)).remove(k@),
        r == progress_contents(*old(m)).contains_key(k@),
{
    m.remove(k).is_some()
}

/// Relies on dashmap::DashMap::contains_key.
#[verifier::external_body]
fn dash_contains(m: &DashMap<String, u32>, k: &str) -> (r: bool)
    ensures
        r == progress_contents(*m).contains_key(k@),
{
    m.contains_key(k)
}

/// The task-id-to-progress store.
pub struct ProgressStore {
    pub map: DashMap<String, u32>,
}

impl ProgressStore {
    /// The stored progress, task id to millionths.
    pub open spec fn contents(self) -> Map<Seq<char>, u32> {
        progress_contents(self.map)
    }

    /// An empty store.
    pub fn new() -> (r: Self)
        ensures
            r.contents() == Map::<Seq<char>, u32>::empty(),
    {
        ProgressStore { map: dash_new() }
    }

    /// Records the last reported progress for a task.
    pub fn set(&mut self, task_id: String, value: u32)
        ensures
            final(self).contents() == old(self).contents().insert(task_id@, value),
    {
        let _replaced = dash_insert(&mut self.map, task_id, value);
    }

    /// The last reported progress for a task, if any was reported.
    pub fn get(&self, task_id: &str) -> (r: Option<u32>)
        ensures
            r == (if self.contents().contains_key(task_id@) {
                Some(self.contents()[task_id@])
            } else {
                None
            }),
    {
        dash_get(&self.map, task_id)
    }

    /// The last reported progress for a task, defaulting to zero where none
    /// was reported.
    pub fn get_or_zero(&self, task_id: &str) -> (r: u32)
        ensures
            r == (if self.contents().contains_key(task_id@) {
                self.contents()[task_id@]
            } else {
                0u32
            }),
    {
        match dash_get(&self.map, task_id) {
            Some(v) => v,
            None => 0,
        }
    }

    /// Whether any progress is recorded for a task.
    pub fn contains(&self, task_id: &str) -> (r: bool)
        ensures
            r == self.contents().contains_key(task_id@),
    {
        dash_contains(&self.map, task_id)
    }

    /// Forgets a finished task's progress entry.
    pub fn clear_task(&mut self, task_id: &str) -> (r: bool)
        ensures
            final(self).contents() == old(self).contents().remove(task_id@),
            r == old(self).contents().contains_key(task_id@),
    {
        dash_remove(&mut self.map, task_id)
    }
}

/// The marker naming the task a worker context is currently running: set when
/// a task body begins, cleared on every exit path, consulted when progress is
/// reported without an explicit task id.
pub struct CurrentTask {
    pub current: Option<String>,
}

impl CurrentTask {
    /// A context running nothing.
    pub fn new() -> (r: Self)
        ensures
            r.current is None,
    {
        CurrentTask { current: None }
    }

    /// Marks which task this context is running, or clears the marker.
    pub fn set_current_task_id(&mut self, task_id: Option<String>)
        ensures
            final(self).current == task_id,
    {
        self.current = task_id;
    }

    /// The task this context is running, if any.
    pub fn get_current_task_id(&self) -> (r: Option<String>)
        ensures
            r == self.current,
    {
        match &self.current {
            Some(id) => Some(id.clone()),
            None => None,
        }
    }
}

} // verus!
