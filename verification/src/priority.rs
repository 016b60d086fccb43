//! The priority queue behind priority dispatch: entries carry a caller-given
//! integer priority, consumption is strictly priority-descending, and equal
//! priorities are served first-in-first-out by a submission sequence number —
//! a deterministic tie-break rather than whatever an underlying heap happens
//! to do.

use vstd::prelude::*;

verus! {

/// A queued entry: its caller-given priority, the submission sequence number
/// that breaks ties, and the queued item itself.
pub struct PriorityEntry<V> {
    pub priority: i32,
    pub seq: u64,
    pub item: V,
}

/// `e` is served before `o`: strictly higher priority, or the same priority
/// and an earlier submission.
pub open spec fn beats<V>(e: PriorityEntry<V>, o: PriorityEntry<V>) -> bool {
    e.priority > o.priority || (e.priority == o.priority && e.seq < o.seq)
}

/// The queue: pending entries and the next submission sequence number.
pub struct PriorityQueue<V> {
    pub entries: Vec<PriorityEntry<V>>,
    pub next_seq: u64,
}

/// What consuming from queue `a`, leaving queue `b`, promises: nothing comes
/// out of an empty queue and it stays as it is; out of a pending queue comes
/// one of its entries, removed from it, that no remaining entry beats.
pub open spec fn pop_post<V>(
    a: PriorityQueue<V>,
    b: PriorityQueue<V>,
    r: Option<PriorityEntry<V>>,
) -> bool {
    &&& b.next_seq == a.next_seq
    &&& (r is None <==> a.entries@.len() == 0)
    &&& (r is None ==> b.entries@ == a.entries@)
    &&& (r matches Some(e) ==> {
        &&& exists|i: int|
            0 <= i < a.entries@.len() && a.entries@[i] == e && b.entries@ == a.entries@.remove(i)
        &&& forall|j: int| 0 <= j < b.entries@.len() ==> beats(e, #[trigger] b.entries@[j])
    })
}

impl<V> PriorityQueue<V> {
    /// Well-formed: sequence numbers are below the counter and pairwise
    /// distinct, so the tie-break is decisive.
    pub open spec fn wf(self) -> bool {
        &&& forall|i: int|
            0 <= i < self.entries@.len() ==> #[trigger] self.entries@[i].seq < self.next_seq
        &&& forall|i: int, j: int|
            0 <= i < self.entries@.len() && 0 <= j < self.entries@.len() && i != j
                ==> #[trigger] self.entries@[i].seq != #[trigger] self.entries@[j].seq
    }

    /// An empty queue.
    pub fn new() -> (r: Self)
        ensures
            r.wf(),
            r.entries@ == Seq::<PriorityEntry<V>>::empty(),
            r.next_seq == 0,
    {
        PriorityQueue { entries: Vec::new(), next_seq: 0 }
    }

    /// How many entries are pending.
    pub fn len(&self) -> (r: usize)
        ensures
            r == self.entries@.len(),
    {
        self.entries.len()
    }

    /// Enqueues an item under the given priority, drawing the next sequence
    /// number for the tie-break.
    pub fn push(&mut self, priority: i32, item: V)
        requires
            old(self).wf(),
            old(self).next_seq < u64::MAX,
        ensures
            final(self).wf(),
            final(self).entries@ == old(self).entries@.push(
                PriorityEntry { priority, seq: old(self).next_seq, item },
            ),
            final(self).next_seq == old(self).next_seq + 1,
    {
        let entry = PriorityEntry { priority, seq: self.next_seq, item };
        self.entries.push(entry);
        self.next_seq = self.next_seq + 1;
    }

    /// Removes and returns the entry served next: no pending entry beats it.
    /// Returns nothing exactly when the queue is empty.
    pub fn pop(&mut self) -> (r: Option<PriorityEntry<V>>)
        requires
            old(self).wf(),
        ensures
            final(self).wf(),
            pop_post(*old(self), *final(self), r),
    {
        let n = self.entries.len();
        if n == 0 {
            return None;
        }
        let mut best: usize = 0;
        let mut i: usize = 1;
        while i < n
            invariant
                0 < n,
                n == self.entries@.len(),
                best < i <= n,
                *self == *old(self),
                self.wf(),
                forall|k: int|
                    0 <= k < i && k != best ==> beats(
                        self.entries@[best as int],
                        #[trigger] self.entries@[k],
                    ),
            decreases n - i,
        {
            let challenger_priority = self.entries[i].priority;
            let challenger_seq = self.entries[i].seq;
            let best_priority = self.entries[best].priority;
            let best_seq = self.entries[best].seq;
            if challenger_priority > best_priority || (challenger_priority == best_priority
                && challenger_seq < best_seq) {
                best = i;
            } else {
                proof {
                    assert(self.entries@[best as int].seq != self.entries@[i as int].seq);
                }
            }
            i = i + 1;
        }
        let ghost chosen = self.entries@[best as int];
        let e = self.entries.remove(best);
        proof {
            assert forall|j: int|
                0 <= j < self.entries@.len() implies beats(chosen, #[trigger] self.entries@[j]) by {
                if j < best {
                    assert(self.entries@[j] == old(self).entries@[j]);
                } else {
                    assert(self.entries@[j] == old(self).entries@[j + 1]);
                }
            }
        }
        Some(e)
    }
}

} // verus!
