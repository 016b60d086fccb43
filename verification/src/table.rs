//! An insertion-ordered, string-keyed table: a hash map paired with the list
//! of its keys in first-insertion order, so callers can take stable snapshots
//! of everything recorded (metrics by operation name, handle metadata).

use vstd::prelude::*;
use vstd::hash_map::StringHashMap;

verus! {

/// A string-keyed table that remembers first-insertion order of its keys.
#[verifier::reject_recursive_types(V)]
pub struct StringTable<V> {
    pub names: Vec<String>,
    pub map: StringHashMap<V>,
}

impl<V> StringTable<V> {
    /// The keys, in first-insertion order.
    pub open spec fn key_seq(self) -> Seq<Seq<char>> {
        self.names@.map_values(|n: String| n@)
    }

    /// The key-to-value contents.
    pub open spec fn contents(self) -> Map<Seq<char>, V> {
        self.map@
    }

    /// Well-formed: each key is listed once, and the listed keys are exactly
    /// the mapped ones.
    pub open spec fn wf(self) -> bool {
        &&& self.key_seq().no_duplicates()
        &&& forall|k: Seq<char>|
            #![auto]
            self.contents().contains_key(k) <==> self.key_seq().contains(k)
    }

    /// An empty table.
    pub fn new() -> (r: Self)
        ensures
            r.wf(),
            r.contents() == Map::<Seq<char>, V>::empty(),
            r.key_seq() == Seq::<Seq<char>>::empty(),
    {
        let r = StringTable { names: Vec::new(), map: StringHashMap::new() };
        proof {
            assert(r.key_seq() =~= Seq::<Seq<char>>::empty());
        }
        r
    }

    /// How many keys the table holds.
    pub fn len(&self) -> (r: usize)
        ensures
            r == self.key_seq().len(),
    {
        self.names.len()
    }

    /// Whether `k` is mapped.
    pub fn contains(&self, k: &str) -> (r: bool)
        ensures
            r == self.contents().contains_key(k@),
    {
        self.map.contains_key(k)
    }

    /// The value mapped at `k`, if any.
    pub fn get<'a>(&'a self, k: &str) -> (r: Option<&'a V>)
        ensures
            match r {
                Some(v) => self.contents().contains_key(k@) && *v == self.contents()[k@],
                None => !self.contents().contains_key(k@),
            },
    {
        self.map.get(k)
    }

    /// The key at position `i` of the insertion order.
    pub fn key_at<'a>(&'a self, i: usize) -> (r: &'a String)
        requires
            i < self.key_seq().len(),
        ensures
            r@ == self.key_seq()[i as int],
    {
        &self.names[i]
    }

    /// Maps `k` to `v`, keeping `k`'s place in the order if it was already
    /// present and appending it otherwise.
    pub fn set(&mut self, k: String, v: V)
        requires
            old(self).wf(),
        ensures
            final(self).wf(),
            final(self).contents() == old(self).contents().insert(k@, v),
            final(self).key_seq() == if old(self).contents().contains_key(k@) {
                old(self).key_seq()
            } else {
                old(self).key_seq().push(k@)
            },
    {
        let ghost kv = k@;
        let ghost oks = old(self).key_seq();
        if !self.map.contains_key(k.as_str()) {
            self.names.push(k.clone());
            proof {
                assert(self.key_seq() =~= oks.push(kv));
            }
        } else {
            proof {
                assert(self.key_seq() =~= oks);
            }
        }
        self.map.insert(k, v);
        proof {
            let nks = self.key_seq();
            if !old(self).contents().contains_key(kv) {
                assert(!oks.contains(kv));
                assert(nks =~= oks.push(kv));
                assert forall|i: int, j: int|
                    0 <= i < nks.len() && 0 <= j < nks.len() && i != j implies nks[i]
                    != nks[j] by {
                    if nks[i] == nks[j] {
                        if i < oks.len() && j < oks.len() {
                            assert(oks[i] == oks[j]);
                        } else if i < oks.len() {
                            assert(oks[i] == kv);
                            assert(oks.contains(kv));
                        } else {
                            assert(oks[j] == kv);
                            assert(oks.contains(kv));
                        }
                    }
                }
                assert forall|x: Seq<char>|
                    #![auto]
                    self.contents().contains_key(x) <==> nks.contains(x) by {
                    if self.contents().contains_key(x) {
                        if x == kv {
                            assert(nks[nks.len() - 1] == x);
                        } else {
                            assert(old(self).contents().contains_key(x));
                            assert(oks.contains(x));
                            let i = choose|i: int| 0 <= i < oks.len() && oks[i] == x;
                            assert(nks[i] == x);
                        }
                    }
                    if nks.contains(x) {
                        let i = choose|i: int| 0 <= i < nks.len() && nks[i] == x;
                        if i < oks.len() {
                            assert(oks[i] == x);
                            assert(oks.contains(x));
                        }
                    }
                }
            } else {
                assert(nks =~= oks);
                assert(oks.contains(kv));
                assert forall|x: Seq<char>|
                    #![auto]
                    self.contents().contains_key(x) <==> nks.contains(x) by {
                }
            }
        }
    }

    /// Empties the table.
    pub fn clear(&mut self)
        ensures
            final(self).wf(),
            final(self).contents() == Map::<Seq<char>, V>::empty(),
            final(self).key_seq() == Seq::<Seq<char>>::empty(),
    {
        self.names.clear();
        self.map.clear();
        proof {
            assert(self.key_seq() =~= Seq::<Seq<char>>::empty());
        }
    }
}

} // verus!
