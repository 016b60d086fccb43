//! The task registry: the set of currently registered task ids, whose size
//! gates both admission and shutdown drain, and the monotonic counter that
//! task ids are derived from.

use vstd::prelude::*;
use crate::text::make_task_id;
use crate::text::task_label;
use crate::text::str_eq;

verus! {

/// The currently registered task ids, in registration order. Registration
/// pushes; deregistration removes every entry with the given id.
pub struct ActiveSet {
    pub ids: Vec<String>,
}

/// The character sequences of a list of strings, in order.
pub open spec fn views_of(v: Seq<String>) -> Seq<Seq<char>> {
    v.map_values(|s: String| s@)
}

impl ActiveSet {
    /// The registered ids in order.
    pub open spec fn view_ids(self) -> Seq<Seq<char>> {
        views_of(self.ids@)
    }

    /// An empty registry.
    pub fn new() -> (r: Self)
        ensures
            r.view_ids() == Seq::<Seq<char>>::empty(),
    {
        let r = ActiveSet { ids: Vec::new() };
        proof {
            assert(r.view_ids() =~= Seq::<Seq<char>>::empty());
        }
        r
    }

    /// Registers a task as active.
    pub fn register_task(&mut self, task_id: String)
        ensures
            final(self).view_ids() == old(self).view_ids().push(task_id@),
    {
        let ghost idv = task_id@;
        self.ids.push(task_id);
        proof {
            assert(self.view_ids() =~= old(self).view_ids().push(idv));
        }
    }

    /// How many tasks are registered.
    pub fn count(&self) -> (r: usize)
        ensures
            r == self.view_ids().len(),
    {
        self.ids.len()
    }

    /// Whether a task with this id is registered.
    pub fn contains(&self, task_id: &str) -> (r: bool)
        ensures
            r == self.view_ids().contains(task_id@),
    {
        let n = self.ids.len();
        let mut i: usize = 0;
        while i < n
            invariant
                i <= n,
                n == self.view_ids().len(),
                forall|k: int| 0 <= k < i ==> self.view_ids()[k] != task_id@,
            decreases n - i,
        {
            if str_eq(self.ids[i].as_str(), task_id) {
                proof {
                    assert(self.view_ids()[i as int] == task_id@);
                }
                return true;
            }
            i = i + 1;
        }
        proof {
            assert(!self.view_ids().contains(task_id@));
        }
        false
    }

    /// Deregisters a task: removes every registered entry with this id.
    pub fn unregister_task(&mut self, task_id: &str)
        ensures
            final(self).view_ids() == without_id(old(self).view_ids(), task_id@),
    {
        let ghost idv = task_id@;
        let ghost orig = old(self).view_ids();
        let n = self.ids.len();
        let mut kept: Vec<String> = Vec::new();
        proof {
            assert(views_of(kept@) =~= without_id(orig.take(0), idv));
        }
        let mut i: usize = 0;
        while i < n
            invariant
                i <= n,
                n == orig.len(),
                idv == task_id@,
                views_of(self.ids@) == orig,
                views_of(kept@) == without_id(orig.take(i as int), idv),
            decreases n - i,
        {
            let ghost prefix = orig.take(i as int);
            let ghost v = orig[i as int];
            proof {
                assert(views_of(self.ids@)[i as int] == self.ids@[i as int]@);
                assert(orig.take(i + 1) =~= prefix.push(v));
                lemma_without_id_push(prefix, v, idv);
            }
            let ghost prev_view = views_of(kept@);
            let entry: &String = &self.ids[i];
            proof {
                assert(entry@ == v);
            }
            if !str_eq(entry.as_str(), task_id) {
                kept.push(entry.clone());
                proof {
                    assert(v != idv);
                    assert(views_of(kept@) =~= prev_view.push(v));
                    assert(without_id(orig.take(i + 1), idv) == without_id(prefix, idv).push(v));
                }
            } else {
                proof {
                    assert(v == idv);
                    assert(without_id(orig.take(i + 1), idv) == without_id(prefix, idv));
                }
            }
            i = i + 1;
        }
        self.ids = kept;
        proof {
            assert(orig.take(n as int) =~= orig);
        }
    }
}

/// `s` with every occurrence of `id` removed, keeping the order of the rest.
pub open spec fn without_id(s: Seq<Seq<char>>, id: Seq<char>) -> Seq<Seq<char>>
    decreases s.len(),
{
    if s.len() == 0 {
        Seq::empty()
    } else if s.first() == id {
        without_id(s.drop_first(), id)
    } else {
        seq![s.first()] + without_id(s.drop_first(), id)
    }
}

/// Removing `id` from a sequence extended at the back removes it from the
/// front part and drops or keeps the new last element by whether it is `id`.
pub proof fn lemma_without_id_push(s: Seq<Seq<char>>, x: Seq<char>, id: Seq<char>)
    ensures
        without_id(s.push(x), id) == if x == id {
            without_id(s, id)
        } else {
            without_id(s, id).push(x)
        },
    decreases s.len(),
{
    if s.len() == 0 {
        assert(s.push(x).first() == x);
        assert(s.push(x).drop_first() =~= Seq::<Seq<char>>::empty());
        assert(without_id(Seq::<Seq<char>>::empty(), id) == Seq::<Seq<char>>::empty());
        if x != id {
            assert(without_id(s.push(x), id) =~= without_id(s, id).push(x));
        }
    } else {
        assert(s.push(x).first() == s.first());
        assert(s.push(x).drop_first() =~= s.drop_first().push(x));
        lemma_without_id_push(s.drop_first(), x, id);
        if s.first() != id {
            if x != id {
                assert((seq![s.first()] + without_id(s.drop_first(), id).push(x)) =~= (seq![
                    s.first(),
                ] + without_id(s.drop_first(), id)).push(x));
            }
        }
    }
}

/// Removing an id that never occurs leaves the sequence unchanged.
pub proof fn lemma_without_id_absent(s: Seq<Seq<char>>, id: Seq<char>)
    requires
        !s.contains(id),
    ensures
        without_id(s, id) == s,
    decreases s.len(),
{
    if s.len() > 0 {
        assert(s[0] != id);
        assert(forall|k: int| 0 <= k < s.drop_first().len() ==> s.drop_first()[k] == s[k + 1]);
        assert(!s.drop_first().contains(id));
        lemma_without_id_absent(s.drop_first(), id);
        assert(seq![s.first()] + s.drop_first() =~= s);
    }
}

/// Nothing named `id` survives its removal.
pub proof fn lemma_without_id_gone(s: Seq<Seq<char>>, id: Seq<char>)
    ensures
        !without_id(s, id).contains(id),
        without_id(s, id).len() <= s.len(),
    decreases s.len(),
{
    if s.len() > 0 {
        lemma_without_id_gone(s.drop_first(), id);
        if s.first() != id {
            let rest = without_id(s.drop_first(), id);
            assert forall|k: int|
                0 <= k < (seq![s.first()] + rest).len() implies (seq![s.first()] + rest)[k]
                != id by {
                if k > 0 {
                    assert((seq![s.first()] + rest)[k] == rest[k - 1]);
                    if rest[k - 1] == id {
                        assert(rest.contains(id));
                    }
                }
            }
        }
    }
}

/// Whatever survives a removal already stood in the original sequence.
pub proof fn lemma_without_id_subset(s: Seq<Seq<char>>, id: Seq<char>)
    ensures
        forall|x: Seq<char>| #[trigger]
            without_id(s, id).contains(x) ==> s.contains(x),
    decreases s.len(),
{
    if s.len() > 0 {
        lemma_without_id_subset(s.drop_first(), id);
        assert forall|x: Seq<char>| #[trigger]
            without_id(s, id).contains(x) implies s.contains(x) by {
            if s.first() == id {
                assert(without_id(s.drop_first(), id).contains(x));
                let k = choose|k: int|
                    0 <= k < s.drop_first().len() && s.drop_first()[k] == x;
                assert(s[k + 1] == x);
            } else {
                let rest = without_id(s.drop_first(), id);
                let j = choose|j: int|
                    0 <= j < (seq![s.first()] + rest).len() && (seq![s.first()] + rest)[j] == x;
                if j == 0 {
                    assert(s[0] == x);
                } else {
                    assert(rest[j - 1] == x);
                    assert(rest.contains(x));
                    let k = choose|k: int|
                        0 <= k < s.drop_first().len() && s.drop_first()[k] == x;
                    assert(s[k + 1] == x);
                }
            }
        }
    }
}

/// The monotonically increasing counter that task ids are derived from.
/// Distinct counter values give distinct labels, so ids are never reused.
pub struct TaskCounter {
    pub next: u64,
}

impl TaskCounter {
    /// A counter starting at zero.
    pub fn new() -> (r: Self)
        ensures
            r.next == 0,
    {
        TaskCounter { next: 0 }
    }

    /// Draws the next task id: the label of the current counter value.
    pub fn fresh_id(&mut self) -> (r: String)
        requires
            old(self).next < u64::MAX,
        ensures
            final(self).next == old(self).next + 1,
            r@ == task_label(old(self).next as nat),
    {
        let id = make_task_id(self.next);
        self.next = self.next + 1;
        id
    }
}

} // verus!
