//! Point-lookup key-value stores backing the persisted maps.
//!
//! Each store is an association list abstracting to a mathematical
//! [`Map`](vstd::map::Map) over the keys' and values' abstract values.

use vstd::prelude::*;

verus! {

/// A key usable in an [`AssocMap`]: it abstracts to a mathematical value and
/// can decide equality of those values.
pub trait MapKey: View + Sized {
    /// Decides whether two keys abstract to the same value.
    fn key_eq(&self, other: &Self) -> (r: bool)
        ensures
            r == (self@ == other@),
    ;
}

/// The map an association list abstracts to; later entries win.
pub open spec fn assoc_view<K: MapKey, V: View>(s: Seq<(K, V)>) -> Map<K::V, V::V>
    decreases s.len(),
{
    if s.len() == 0 {
        Map::empty()
    } else {
        assoc_view(s.drop_last()).insert(s.last().0@, s.last().1@)
    }
}

/// No two entries share a key.
pub open spec fn distinct_keys<K: MapKey, V: View>(s: Seq<(K, V)>) -> bool {
    forall|i: int, j: int| 0 <= i < j < s.len() ==> s[i].0@ != s[j].0@
}

/// The abstract map holds a key exactly when some entry carries it.
proof fn lemma_assoc_view_contains<K: MapKey, V: View>(s: Seq<(K, V)>, k: K::V)
    ensures
        assoc_view(s).contains_key(k) <==> exists|i: int| 0 <= i < s.len() && s[i].0@ == k,
    decreases s.len(),
{
    if s.len() == 0 {
    } else {
        lemma_assoc_view_contains(s.drop_last(), k);
        if assoc_view(s).contains_key(k) {
            if s.last().0@ == k {
                assert(s[s.len() - 1].0@ == k);
            } else {
                let i = choose|i: int| 0 <= i < s.drop_last().len() && s.drop_last()[i].0@ == k;
                assert(s[i].0@ == k);
            }
        }
        if exists|i: int| 0 <= i < s.len() && s[i].0@ == k {
            let i = choose|i: int| 0 <= i < s.len() && s[i].0@ == k;
            if i < s.len() - 1 {
                assert(s.drop_last()[i].0@ == k);
            }
        }
    }
}

/// In a distinct association list, each entry's key maps to that entry's value.
proof fn lemma_assoc_view_index<K: MapKey, V: View>(s: Seq<(K, V)>, i: int)
    requires
        distinct_keys(s),
        0 <= i < s.len(),
    ensures
        assoc_view(s).contains_key(s[i].0@),
        assoc_view(s)[s[i].0@] == s[i].1@,
    decreases s.len(),
{
    if i == s.len() - 1 {
    } else {
        assert(distinct_keys(s.drop_last())) by {
            assert(forall|x: int, y: int|
                0 <= x < y < s.drop_last().len() ==> s.drop_last()[x].0@ != s.drop_last()[y].0@)
                by {
                assert(forall|x: int, y: int|
                    0 <= x < y < s.drop_last().len() ==> s[x].0@ != s[y].0@);
            }
        }
        assert(s.drop_last()[i] == s[i]);
        lemma_assoc_view_index(s.drop_last(), i);
        assert(s[i].0@ != s.last().0@);
    }
}

/// Removing an entry removes exactly its key from the abstract map.
proof fn lemma_assoc_view_remove<K: MapKey, V: View>(s: Seq<(K, V)>, i: int)
    requires
        distinct_keys(s),
        0 <= i < s.len(),
    ensures
        assoc_view(s.remove(i)) == assoc_view(s).remove(s[i].0@),
    decreases s.len(),
{
    s.remove_ensures(i);
    if i == s.len() - 1 {
        assert(s.remove(i) =~= s.drop_last());
        lemma_assoc_view_contains(s.drop_last(), s[i].0@);
        assert(!assoc_view(s.drop_last()).contains_key(s[i].0@)) by {
            if exists|j: int| 0 <= j < s.drop_last().len() && s.drop_last()[j].0@ == s[i].0@ {
                let j = choose|j: int|
                    0 <= j < s.drop_last().len() && s.drop_last()[j].0@ == s[i].0@;
                assert(s[j].0@ == s[i].0@);
            }
        }
        assert(assoc_view(s.drop_last()) =~= assoc_view(s).remove(s[i].0@));
    } else {
        assert(distinct_keys(s.drop_last())) by {
            assert(forall|x: int, y: int|
                0 <= x < y < s.drop_last().len() ==> s[x].0@ != s[y].0@);
        }
        lemma_assoc_view_remove(s.drop_last(), i);
        let t = s.remove(i);
        assert(t.len() == s.len() - 1);
        assert(t.last() == s.last());
        assert(t.drop_last() =~= s.drop_last().remove(i)) by {
            s.drop_last().remove_ensures(i);
        }
        assert(s[i].0@ != s.last().0@);
        assert(assoc_view(t) == assoc_view(s.drop_last().remove(i)).insert(
            s.last().0@,
            s.last().1@,
        ));
        assert(assoc_view(s.drop_last()).remove(s[i].0@).insert(s.last().0@, s.last().1@)
            =~= assoc_view(s.drop_last()).insert(s.last().0@, s.last().1@).remove(s[i].0@));
    }
}

/// An association-list map with point lookups, insertion and removal.
pub struct AssocMap<K, V> {
    entries: Vec<(K, V)>,
}

impl<K: MapKey, V: View> View for AssocMap<K, V> {
    type V = Map<K::V, V::V>;

    closed spec fn view(&self) -> Map<K::V, V::V> {
        assoc_view(self.entries@)
    }
}

impl<K: MapKey, V: View> AssocMap<K, V> {
    /// No two stored entries share a key.
    pub closed spec fn wf(self) -> bool {
        distinct_keys(self.entries@)
    }

    /// The empty map.
    pub fn new() -> (r: Self)
        ensures
            r.wf(),
            r@ == Map::<K::V, V::V>::empty(),
    {
        AssocMap { entries: Vec::new() }
    }

    /// The index of the entry carrying `key`, if any.
    fn find_index(&self, key: &K) -> (r: Option<usize>)
        ensures
            match r {
                Some(i) => i < self.entries@.len() && self.entries@[i as int].0@ == key@,
                None => forall|j: int| 0 <= j < self.entries@.len() ==> self.entries@[j].0@ != key@,
            },
    {
        let mut i: usize = 0;
        while i < self.entries.len()
            invariant
                i <= self.entries@.len(),
                forall|j: int| 0 <= j < i ==> self.entries@[j].0@ != key@,
            decreases self.entries@.len() - i,
        {
            if self.entries[i].0.key_eq(key) {
                return Some(i);
            }
            i = i + 1;
        }
        None
    }

    /// Whether the map holds `key`.
    pub fn contains_key(&self, key: &K) -> (r: bool)
        requires
            self.wf(),
        ensures
            r == self@.contains_key(key@),
    {
        proof {
            lemma_assoc_view_contains(self.entries@, key@);
        }
        match self.find_index(key) {
            Some(_) => true,
            None => false,
        }
    }

    /// The value stored under `key`, if any.
    pub fn get(&self, key: &K) -> (r: Option<&V>)
        requires
            self.wf(),
        ensures
            match r {
                Some(v) => self@.contains_key(key@) && v@ == self@[key@],
                None => !self@.contains_key(key@),
            },
    {
        proof {
            lemma_assoc_view_contains(self.entries@, key@);
        }
        match self.find_index(key) {
            Some(i) => {
                proof {
                    lemma_assoc_view_index(self.entries@, i as int);
                }
                Some(&self.entries[i].1)
            },
            None => None,
        }
    }

    /// Stores `value` under `key`, replacing any earlier value.
    pub fn insert(&mut self, key: K, value: V)
        requires
            old(self).wf(),
        ensures
            final(self).wf(),
            final(self)@ == old(self)@.insert(key@, value@),
    {
        let ghost pre = self.entries@;
        match self.find_index(&key) {
            Some(i) => {
                proof {
                    lemma_assoc_view_remove(pre, i as int);
                    pre.remove_ensures(i as int);
                }
                let _ = self.entries.remove(i);
                proof {
                    assert(distinct_keys(self.entries@)) by {
                        assert(forall|x: int, y: int|
                            0 <= x < y < self.entries@.len() ==> self.entries@[x].0@
                                != self.entries@[y].0@) by {
                            assert(forall|x: int|
                                0 <= x < self.entries@.len() ==> #[trigger] self.entries@[x]
                                    == if x < i {
                                    pre[x]
                                } else {
                                    pre[x + 1]
                                });
                        }
                    }
                    assert(forall|x: int|
                        0 <= x < self.entries@.len() ==> #[trigger] self.entries@[x].0@ != key@)
                        by {
                        assert(forall|x: int|
                            0 <= x < self.entries@.len() ==> #[trigger] self.entries@[x]
                                == if x < i {
                                pre[x]
                            } else {
                                pre[x + 1]
                            });
                    }
                }
                let ghost mid = self.entries@;
                self.entries.push((key, value));
                proof {
                    assert(self.entries@.drop_last() =~= mid);
                    assert(self.entries@.last().0@ == key@);
                    assert(distinct_keys(self.entries@)) by {
                        assert(forall|x: int|
                            0 <= x < mid.len() ==> #[trigger] self.entries@[x] == mid[x]);
                    }
                    assert(assoc_view(self.entries@) =~= assoc_view(pre).insert(key@, value@));
                }
            },
            None => {
                self.entries.push((key, value));
                proof {
                    assert(self.entries@.drop_last() =~= pre);
                    assert(distinct_keys(self.entries@)) by {
                        assert(forall|x: int|
                            0 <= x < pre.len() ==> #[trigger] self.entries@[x] == pre[x]);
                    }
                }
            },
        }
    }

    /// Deletes the entry under `key`, if any.
    pub fn remove(&mut self, key: &K)
        requires
            old(self).wf(),
        ensures
            final(self).wf(),
            final(self)@ == old(self)@.remove(key@),
    {
        let ghost pre = self.entries@;
        match self.find_index(key) {
            Some(i) => {
                proof {
                    lemma_assoc_view_remove(pre, i as int);
                    pre.remove_ensures(i as int);
                }
                let _ = self.entries.remove(i);
                proof {
                    assert(distinct_keys(self.entries@)) by {
                        assert(forall|x: int|
                            0 <= x < self.entries@.len() ==> #[trigger] self.entries@[x]
                                == if x < i {
                                pre[x]
                            } else {
                                pre[x + 1]
                            });
                    }
                }
            },
            None => {
                proof {
                    lemma_assoc_view_contains(pre, key@);
                    assert(assoc_view(pre) =~= assoc_view(pre).remove(key@));
                }
            },
        }
    }
}

} // verus!
