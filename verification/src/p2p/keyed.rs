//! Maps and sets keyed by byte strings (encoded public keys and peer ids).
//!
//! They keep their entries in a vector in which no key occurs twice; lookups
//! compare keys byte by byte.

use vstd::prelude::*;

verus! {

/// Whether two byte strings are equal.
pub fn bytes_eq(a: &[u8], b: &[u8]) -> (r: bool)
    ensures
        r == (a@ == b@),
{
    if a.len() != b.len() {
        return false;
    }
    let n = a.len();
    let mut i: usize = 0;
    while i < n
        invariant
            n == a@.len(),
            n == b@.len(),
            i <= n,
            forall|j: int| 0 <= j < i ==> a@[j] == b@[j],
        decreases n - i,
    {
        if a[i] != b[i] {
            return false;
        }
        i = i + 1;
    }
    assert(a@ =~= b@);
    true
}

/// A map from byte strings to values.
pub struct ByteKeyMap<V> {
    entries: Vec<(Vec<u8>, V)>,
}

impl<V> ByteKeyMap<V> {

    /// No key occurs twice.
    pub closed spec fn wf(self) -> bool {
        forall|i: int, j: int|
            0 <= i < j < self.entries@.len() ==> #[trigger] self.entries@[i].0@
                != #[trigger] self.entries@[j].0@
    }

    /// The map as a mathematical map.
    pub closed spec fn view(self) -> Map<Seq<u8>, V> {
        Map::new(
            |k: Seq<u8>| exists|i: int| 0 <= i < self.entries@.len() && self.entries@[i].0@ == k,
            |k: Seq<u8>|
                self.entries@[choose|i: int|
                    0 <= i < self.entries@.len() && self.entries@[i].0@ == k].1,
        )
    }

    proof fn lemma_view_at(self, i: int)
        requires
            self.wf(),
            0 <= i < self.entries@.len(),
        ensures
            self.view().contains_key(self.entries@[i].0@),
            self.view()[self.entries@[i].0@] == self.entries@[i].1,
    {
        let k = self.entries@[i].0@;
        assert(self.view().dom().contains(k));
        let c = choose|j: int| 0 <= j < self.entries@.len() && self.entries@[j].0@ == k;
        if c != i {
            if c < i {
                assert(self.entries@[c].0@ != self.entries@[i].0@);
            } else {
                assert(self.entries@[i].0@ != self.entries@[c].0@);
            }
        }
    }

    /// An empty map.
    pub fn new() -> (m: Self)
        ensures
            m.wf(),
            m.view() == Map::<Seq<u8>, V>::empty(),
    {
        let m = ByteKeyMap { entries: Vec::new() };
        assert(m.view() =~= Map::<Seq<u8>, V>::empty());
        m
    }

    /// Whether the map has no entry.
    pub fn is_empty(&self) -> (r: bool)
        requires
            self.wf(),
        ensures
            r <==> self.view() == Map::<Seq<u8>, V>::empty(),
    {
        let r = self.entries.len() == 0;
        proof {
            if r {
                assert(self.view() =~= Map::<Seq<u8>, V>::empty());
            } else {
                self.lemma_view_at(0);
                assert(!Map::<Seq<u8>, V>::empty().contains_key(self.entries@[0].0@));
            }
        }
        r
    }

    /// Whether `key` has an entry.
    pub fn contains_key(&self, key: &[u8]) -> (r: bool)
        requires
            self.wf(),
        ensures
            r == self.view().contains_key(key@),
    {
        match self.index_of(key) {
            Some(_) => true,
            None => false,
        }
    }

    /// The position of `key`'s entry.
    fn index_of(&self, key: &[u8]) -> (r: Option<usize>)
        requires
            self.wf(),
        ensures
            r is Some <==> self.view().contains_key(key@),
            r matches Some(i) ==> i < self.entries@.len() && self.entries@[i as int].0@ == key@,
    {
        let n = self.entries.len();
        let mut i: usize = 0;
        while i < n
            invariant
                n == self.entries@.len(),
                i <= n,
                self.wf(),
                forall|j: int| 0 <= j < i ==> self.entries@[j].0@ != key@,
            decreases n - i,
        {
            if bytes_eq(self.entries[i].0.as_slice(), key) {
                proof {
                    self.lemma_view_at(i as int);
                }
                return Some(i);
            }
            i = i + 1;
        }
        assert(!self.view().contains_key(key@)) by {
            if self.view().contains_key(key@) {
                let j = choose|j: int| 0 <= j < self.entries@.len() && self.entries@[j].0@ == key@;
                assert(self.entries@[j].0@ != key@);
            }
        }
        None
    }

    /// The value stored under `key`.
    pub fn get(&self, key: &[u8]) -> (r: Option<&V>)
        requires
            self.wf(),
        ensures
            r is Some <==> self.view().contains_key(key@),
            r matches Some(v) ==> *v == self.view()[key@],
    {
        match self.index_of(key) {
            Some(i) => {
                proof {
                    self.lemma_view_at(i as int);
                }
                Some(&self.entries[i].1)
            },
            None => None,
        }
    }

    /// Stores `value` under `key`, returning the value it replaces.
    pub fn insert(&mut self, key: Vec<u8>, value: V) -> (r: Option<V>)
        requires
            old(self).wf(),
        ensures
            final(self).wf(),
            final(self).view() == old(self).view().insert(key@, value),
            r is Some <==> old(self).view().contains_key(key@),
            r matches Some(v) ==> v == old(self).view()[key@],
    {
        let removed = self.remove(key.as_slice());
        let ghost mid_self = *self;
        let ghost mid = self.entries@;
        let ghost k = key@;
        proof {
            assert forall|i: int| 0 <= i < mid.len() implies #[trigger] mid[i].0@ != k by {
                if mid[i].0@ == k {
                    assert(mid_self.view().contains_key(k));
                }
            }
        }
        self.entries.push((key, value));
        proof {
            let last = self.entries@.len() - 1;
            assert(self.entries@[last].0@ == k);
            assert forall|i: int, j: int|
                0 <= i < j < self.entries@.len() implies #[trigger] self.entries@[i].0@
                != #[trigger] self.entries@[j].0@ by {
                assert(self.entries@[i] == mid[i]);
                if j < last {
                    assert(self.entries@[j] == mid[j]);
                }
            }
            assert forall|x: Seq<u8>| #[trigger] self.view().contains_key(x)
                == old(self).view().insert(k, value).contains_key(x) by {
                if x != k {
                    if old(self).view().insert(k, value).contains_key(x) {
                        assert(mid_self.view().contains_key(x));
                        let i = choose|i: int| 0 <= i < mid.len() && mid[i].0@ == x;
                        assert(self.entries@[i] == mid[i]);
                    }
                    if self.view().contains_key(x) {
                        let i = choose|i: int|
                            0 <= i < self.entries@.len() && self.entries@[i].0@ == x;
                        assert(i < mid.len());
                        assert(self.entries@[i] == mid[i]);
                        assert(mid_self.view().contains_key(x));
                    }
                } else {
                    assert(self.view().contains_key(x));
                }
            }
            assert forall|x: Seq<u8>| #[trigger] self.view().contains_key(x) implies self.view()[x]
                == old(self).view().insert(k, value)[x] by {
                let i = choose|i: int| 0 <= i < self.entries@.len() && self.entries@[i].0@ == x;
                self.lemma_view_at(i);
                if x != k {
                    assert(i < mid.len());
                    assert(self.entries@[i] == mid[i]);
                    mid_self.lemma_view_at(i);
                } else {
                    if i != last {
                        assert(self.entries@[i].0@ != self.entries@[last].0@);
                    }
                }
            }
            assert(self.view() =~= old(self).view().insert(k, value));
        }
        removed
    }

    /// Removes `key`'s entry, returning its value.
    pub fn remove(&mut self, key: &[u8]) -> (r: Option<V>)
        requires
            old(self).wf(),
        ensures
            final(self).wf(),
            final(self).view() == old(self).view().remove(key@),
            r is Some <==> old(self).view().contains_key(key@),
            r matches Some(v) ==> v == old(self).view()[key@],
    {
        match self.index_of(key) {
            None => {
                proof {
                    assert(self.view().remove(key@) =~= self.view());
                }
                None
            },
            Some(i) => {
                proof {
                    self.lemma_view_at(i as int);
                }
                let ghost before = self.entries@;
                let (_, v) = self.entries.remove(i);
                proof {
                    assert(self.entries@ =~= before.remove(i as int));
                    assert forall|a: int, b: int|
                        0 <= a < b < self.entries@.len() implies #[trigger] self.entries@[a].0@
                        != #[trigger] self.entries@[b].0@ by {
                        let oa = if a < i {
                            a
                        } else {
                            a + 1
                        };
                        let ob = if b < i {
                            b
                        } else {
                            b + 1
                        };
                        assert(self.entries@[a] == before[oa]);
                        assert(self.entries@[b] == before[ob]);
                    }
                    assert forall|x: Seq<u8>| #[trigger] self.view().contains_key(x)
                        == old(self).view().remove(key@).contains_key(x) by {
                        if self.view().contains_key(x) {
                            let j = choose|j: int|
                                0 <= j < self.entries@.len() && self.entries@[j].0@ == x;
                            let oj = if j < i {
                                j
                            } else {
                                j + 1
                            };
                            assert(before[oj].0@ == x);
                            if x == key@ {
                                if oj < i {
                                    assert(before[oj].0@ != before[i as int].0@);
                                } else {
                                    assert(before[i as int].0@ != before[oj].0@);
                                }
                            }
                        }
                        if old(self).view().remove(key@).contains_key(x) {
                            let j = choose|j: int| 0 <= j < before.len() && before[j].0@ == x;
                            assert(j != i);
                            let nj = if j < i {
                                j
                            } else {
                                j - 1
                            };
                            assert(self.entries@[nj].0@ == x);
                        }
                    }
                    assert forall|x: Seq<u8>| #[trigger] self.view().contains_key(x) implies self.view()[x]
                        == old(self).view().remove(key@)[x] by {
                        let j = choose|j: int|
                            0 <= j < self.entries@.len() && self.entries@[j].0@ == x;
                        self.lemma_view_at(j);
                        let oj = if j < i {
                            j
                        } else {
                            j + 1
                        };
                        old(self).lemma_view_at(oj);
                    }
                    assert(self.view() =~= old(self).view().remove(key@));
                }
                Some(v)
            },
        }
    }
}

} // verus!
