//! A small digest-keyed store with a mathematical map as its view.
//!
//! Entries are held in insertion order with distinct keys; lookups scan,
//! insertions replace in place or append. The view ties every operation to
//! `Map<Digest, V::V>`, which is what the storage contracts are stated over.

use vstd::prelude::*;
use crate::digest::Digest;

verus! {

/// The map denoted by a sequence of entries; a later entry overrides an
/// earlier one with the same key.
pub open spec fn entries_map<V: View>(s: Seq<(Digest, V)>) -> Map<Digest, V::V>
    decreases s.len(),
{
    if s.len() == 0 {
        Map::empty()
    } else {
        entries_map(s.drop_last()).insert(s.last().0, s.last().1@)
    }
}

/// No two entries share a key.
pub open spec fn distinct_keys<V>(s: Seq<(Digest, V)>) -> bool {
    forall|i: int, j: int| 0 <= i < j < s.len() ==> s[i].0 != s[j].0
}

/// A key is in the denoted map exactly when some entry carries it.
proof fn lemma_entries_map_domain<V: View>(s: Seq<(Digest, V)>, k: Digest)
    ensures
        entries_map(s).contains_key(k) <==> exists|i: int| 0 <= i < s.len() && s[i].0 == k,
    decreases s.len(),
{
    if s.len() > 0 {
        lemma_entries_map_domain(s.drop_last(), k);
        if s.last().0 == k {
            assert(s[s.len() - 1].0 == k);
        } else if entries_map(s).contains_key(k) {
            let i = choose|i: int| 0 <= i < s.drop_last().len() && s.drop_last()[i].0 == k;
            assert(s[i].0 == k);
        } else {
            assert forall|i: int| 0 <= i < s.len() implies s[i].0 != k by {
                if i < s.len() - 1 {
                    assert(s.drop_last()[i].0 == s[i].0);
                }
            }
        }
    }
}

/// With distinct keys, the denoted map sends a key to the view of the entry
/// that carries it.
proof fn lemma_entries_map_index<V: View>(s: Seq<(Digest, V)>, i: int)
    requires
        distinct_keys(s),
        0 <= i < s.len(),
    ensures
        entries_map(s).contains_key(s[i].0),
        entries_map(s)[s[i].0] == s[i].1@,
    decreases s.len(),
{
    lemma_entries_map_domain(s, s[i].0);
    if i < s.len() - 1 {
        assert(s.drop_last()[i] == s[i]);
        assert(distinct_keys(s.drop_last())) by {
            assert forall|x: int, y: int|
                0 <= x < y < s.drop_last().len() implies s.drop_last()[x].0
                != s.drop_last()[y].0 by {
                assert(s.drop_last()[x] == s[x] && s.drop_last()[y] == s[y]);
            }
        }
        lemma_entries_map_index(s.drop_last(), i);
        assert(s[i].0 != s.last().0);
    }
}

/// Replacing the entry that carries a key denotes inserting into the map.
proof fn lemma_entries_map_update<V: View>(s: Seq<(Digest, V)>, i: int, v: V)
    requires
        distinct_keys(s),
        0 <= i < s.len(),
    ensures
        entries_map(s.update(i, (s[i].0, v))) == entries_map(s).insert(s[i].0, v@),
    decreases s.len(),
{
    let k = s[i].0;
    let t = s.update(i, (k, v));
    if i == s.len() - 1 {
        assert(t.drop_last() =~= s.drop_last());
        assert(t.last() == (k, v));
        assert(entries_map(t) == entries_map(s.drop_last()).insert(k, v@));
        assert(entries_map(s).insert(k, v@) == entries_map(s.drop_last()).insert(
            s.last().0,
            s.last().1@,
        ).insert(k, v@));
        assert(entries_map(s.drop_last()).insert(k, v@) =~= entries_map(s.drop_last()).insert(
            k,
            s.last().1@,
        ).insert(k, v@));
    } else {
        assert(t.drop_last() =~= s.drop_last().update(i, (k, v)));
        assert(s.drop_last()[i] == s[i]);
        assert(distinct_keys(s.drop_last())) by {
            assert forall|x: int, y: int|
                0 <= x < y < s.drop_last().len() implies s.drop_last()[x].0
                != s.drop_last()[y].0 by {
                assert(s.drop_last()[x] == s[x] && s.drop_last()[y] == s[y]);
            }
        }
        lemma_entries_map_update(s.drop_last(), i, v);
        assert(t.last() == s.last());
        assert(k != s.last().0);
        assert(entries_map(t) == entries_map(s.drop_last()).insert(k, v@).insert(
            s.last().0,
            s.last().1@,
        ));
        assert(entries_map(s.drop_last()).insert(k, v@).insert(s.last().0, s.last().1@)
            =~= entries_map(s.drop_last()).insert(s.last().0, s.last().1@).insert(k, v@));
    }
}

/// A digest-keyed store of values, viewed as a map.
pub struct Table<V> {
    entries: Vec<(Digest, V)>,
}

impl<V: View> View for Table<V> {
    type V = Map<Digest, V::V>;

    closed spec fn view(&self) -> Map<Digest, V::V> {
        entries_map(self.entries@)
    }
}

impl<V: View> Table<V> {
    /// The store keeps its keys distinct.
    pub closed spec fn wf(&self) -> bool {
        distinct_keys(self.entries@)
    }

    /// An empty store.
    pub fn new() -> (r: Self)
        ensures
            r.wf(),
            r@ == Map::<Digest, V::V>::empty(),
    {
        Table { entries: Vec::new() }
    }

    /// The value stored under `k`, if any.
    pub fn get(&self, k: Digest) -> (r: Option<&V>)
        requires
            self.wf(),
        ensures
            match r {
                Some(v) => self@.contains_key(k) && v@ == self@[k],
                None => !self@.contains_key(k),
            },
    {
        let n = self.entries.len();
        let mut i: usize = 0;
        while i < n
            invariant
                0 <= i <= n,
                n == self.entries@.len(),
                self.wf(),
                forall|j: int| 0 <= j < i ==> self.entries@[j].0 != k,
            decreases n - i,
        {
            if self.entries[i].0 == k {
                proof {
                    lemma_entries_map_index(self.entries@, i as int);
                }
                return Some(&self.entries[i].1);
            }
            i = i + 1;
        }
        proof {
            lemma_entries_map_domain(self.entries@, k);
        }
        None
    }

    /// Whether a value is stored under `k`.
    pub fn contains_key(&self, k: Digest) -> (r: bool)
        requires
            self.wf(),
        ensures
            r == self@.contains_key(k),
    {
        self.get(k).is_some()
    }

    /// Stores `v` under `k`, replacing what was there.
    pub fn insert(&mut self, k: Digest, v: V)
        requires
            old(self).wf(),
        ensures
            final(self).wf(),
            final(self)@ == old(self)@.insert(k, v@),
    {
        let n = self.entries.len();
        let mut i: usize = 0;
        while i < n
            invariant
                0 <= i <= n,
                n == self.entries@.len(),
                self.wf(),
                self.entries@ == old(self).entries@,
                forall|j: int| 0 <= j < i ==> self.entries@[j].0 != k,
            decreases n - i,
        {
            if self.entries[i].0 == k {
                proof {
                    lemma_entries_map_update(self.entries@, i as int, v);
                }
                self.entries.set(i, (k, v));
                proof {
                    assert(distinct_keys(self.entries@)) by {
                        assert forall|x: int, y: int|
                            0 <= x < y < self.entries@.len() implies self.entries@[x].0
                            != self.entries@[y].0 by {
                            if x != i as int && y != i as int {
                                assert(self.entries@[x] == old(self).entries@[x]);
                                assert(self.entries@[y] == old(self).entries@[y]);
                            }
                        }
                    }
                }
                return ;
            }
            i = i + 1;
        }
        proof {
            lemma_entries_map_domain(self.entries@, k);
        }
        self.entries.push((k, v));
        proof {
            assert(self.entries@.drop_last() =~= old(self).entries@);
            assert(distinct_keys(self.entries@)) by {
                assert forall|x: int, y: int|
                    0 <= x < y < self.entries@.len() implies self.entries@[x].0
                    != self.entries@[y].0 by {
                    if y < self.entries@.len() - 1 {
                        assert(self.entries@[x] == old(self).entries@[x]);
                        assert(self.entries@[y] == old(self).entries@[y]);
                    } else {
                        assert(self.entries@[x] == old(self).entries@[x]);
                    }
                }
            }
        }
    }
}

} // verus!
