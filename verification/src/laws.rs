//! The engine's cross-cutting guarantees, stated and proved over the spec
//! functions its contracts use: a drained registry after balanced admissions
//! and completions, the stability of a handle's cached outcome, and what the
//! dependency resolver must report when a prerequisite failed or is missing.

use vstd::prelude::*;
use crate::handle::TaskHandle;
use crate::handle::get_post;
use crate::values::TaskOutcome;
use crate::values::TaskValue;
use crate::registry::without_id;
use crate::registry::lemma_without_id_push;
use crate::registry::lemma_without_id_absent;
use crate::registry::lemma_without_id_gone;
use crate::registry::lemma_without_id_subset;
use crate::deps::PrereqCheck;
use crate::deps::prereq_check_post;
use crate::deps::dep_settled;
use crate::priority::PriorityQueue;
use crate::priority::PriorityEntry;
use crate::priority::pop_post;
use crate::priority::beats;

verus! {

/// Admitting a task that is not registered and then finishing it leaves the
/// registry exactly as it was: admission pushes a fresh id (`admit_task`
/// guarantees the id is fresh) and every exit path of a worker removes it
/// (`finish_task` removes every occurrence).
pub proof fn lemma_admit_then_finish_restores(active: Seq<Seq<char>>, id: Seq<char>)
    requires
        !active.contains(id),
    ensures
        without_id(active.push(id), id) == active,
{
    lemma_without_id_push(active, id, id);
    lemma_without_id_absent(active, id);
}

/// The registered ids left after finishing each task named in `ids`, in that
/// order.
pub open spec fn drain_all(active: Seq<Seq<char>>, ids: Seq<Seq<char>>) -> Seq<Seq<char>>
    decreases ids.len(),
{
    if ids.len() == 0 {
        active
    } else {
        drain_all(without_id(active, ids.first()), ids.drop_first())
    }
}

/// Once every registered task has been finished, the registry is empty — for
/// any number of tasks, zero included. Every registered id being among the
/// finished ones is exactly "all handles' tasks ran to an exit path", since
/// each exit path finishes its task.
pub proof fn lemma_all_finished_drains(active: Seq<Seq<char>>, ids: Seq<Seq<char>>)
    requires
        forall|x: Seq<char>| active.contains(x) ==> ids.contains(x),
    ensures
        drain_all(active, ids).len() == 0,
    decreases ids.len(),
{
    if ids.len() == 0 {
        if active.len() > 0 {
            assert(active.contains(active[0]));
        }
    } else {
        let id0 = ids.first();
        let rest = without_id(active, id0);
        lemma_without_id_gone(active, id0);
        lemma_without_id_subset(active, id0);
        assert forall|x: Seq<char>| rest.contains(x) implies ids.drop_first().contains(x) by {
            assert(active.contains(x));
            assert(ids.contains(x));
            let k = choose|k: int| 0 <= k < ids.len() && ids[k] == x;
            assert(x != id0);
            assert(k != 0);
            assert(ids.drop_first()[k - 1] == x);
        }
        lemma_all_finished_drains(rest, ids.drop_first());
    }
}

/// Reading a handle twice returns the identical cached outcome both times:
/// once a first read has observed a result, a second read returns exactly
/// what the first returned and leaves the cache untouched, whatever else the
/// channel might still deliver.
pub proof fn lemma_second_read_returns_first(
    h0: TaskHandle,
    h1: TaskHandle,
    h2: TaskHandle,
    r1: TaskOutcome,
    r2: TaskOutcome,
)
    requires
        get_post(h0, h1, r1),
        get_post(h1, h2, r2),
        h1.cache is Some,
    ensures
        r2 == r1,
        h2.cache == h1.cache,
{
}

/// Consumption from the priority queue is strictly priority-descending, with
/// equal priorities served in submission order: whatever two entries two
/// successive pops hand the consumer, the first has the higher priority, or
/// the same priority and the earlier submission number.
pub proof fn lemma_consumption_priority_descending<V>(
    q0: PriorityQueue<V>,
    q1: PriorityQueue<V>,
    q2: PriorityQueue<V>,
    e1: PriorityEntry<V>,
    e2: PriorityEntry<V>,
)
    requires
        pop_post(q0, q1, Some(e1)),
        pop_post(q1, q2, Some(e2)),
    ensures
        beats(e1, e2),
{
    let i = choose|i: int|
        0 <= i < q1.entries@.len() && q1.entries@[i] == e2 && q2.entries@ == q1.entries@.remove(i);
    assert(beats(e1, q1.entries@[i]));
}

/// When the first prerequisite in the list has a stored error, a poll of the
/// prerequisites must report the failure as that prerequisite's, carrying its
/// stored message — the dependent's own body never runs.
pub proof fn lemma_failed_first_dependency(
    results: Map<Seq<char>, TaskValue>,
    errors: Map<Seq<char>, String>,
    ds: Seq<Seq<char>>,
    r: PrereqCheck,
)
    requires
        prereq_check_post(results, errors, ds, r),
        ds.len() > 0,
        errors.contains_key(ds[0]),
    ensures
        r matches PrereqCheck::Failed { dep_id, message } && dep_id@ == ds[0] && message@
            == errors[ds[0]]@,
{
    match r {
        PrereqCheck::Ready { values } => {
            assert(dep_settled(results, errors, ds[0]));
        },
        PrereqCheck::Failed { dep_id, message } => {
            let i = choose|i: int|
                {
                    &&& 0 <= i < ds.len()
                    &&& errors.contains_key(#[trigger] ds[i])
                    &&& dep_id@ == ds[i]
                    &&& message@ == errors[ds[i]]@
                    &&& forall|j: int|
                        0 <= j < i ==> dep_settled(results, errors, #[trigger] ds[j])
                };
            if i > 0 {
                assert(dep_settled(results, errors, ds[0]));
            }
        },
        PrereqCheck::Pending { dep_id } => {
            let i = choose|i: int|
                {
                    &&& 0 <= i < ds.len()
                    &&& !errors.contains_key(#[trigger] ds[i])
                    &&& !results.contains_key(ds[i])
                    &&& dep_id@ == ds[i]
                    &&& forall|j: int|
                        0 <= j < i ==> dep_settled(results, errors, #[trigger] ds[j])
                };
            if i > 0 {
                assert(dep_settled(results, errors, ds[0]));
            }
        },
    }
}

/// While any prerequisite is unsettled — no stored result, or a stored error
/// — a poll of the prerequisites never reports ready, so the dependent's
/// operation body cannot run before every prerequisite is resolved.
pub proof fn lemma_unsettled_prerequisite_blocks(
    results: Map<Seq<char>, TaskValue>,
    errors: Map<Seq<char>, String>,
    ds: Seq<Seq<char>>,
    r: PrereqCheck,
    i: int,
)
    requires
        prereq_check_post(results, errors, ds, r),
        0 <= i < ds.len(),
        !dep_settled(results, errors, ds[i]),
    ensures
        !(r is Ready),
{
}

} // verus!
