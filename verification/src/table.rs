//! A table keyed by 32-bit identifiers in which no key occurs twice.

use vstd::prelude::*;

verus! {

/// The position at which `k` stands in `keys`.
spec fn slot(keys: Seq<u32>, k: u32) -> int {
    choose|i: int| 0 <= i < keys.len() && keys[i] == k
}

/// In a sequence without duplicates every key stands at exactly one position.
proof fn lemma_slot_unique(keys: Seq<u32>, i: int)
    requires
        keys.no_duplicates(),
        0 <= i < keys.len(),
    ensures
        slot(keys, keys[i]) == i,
{
    let j = slot(keys, keys[i]);
    assert(0 <= j < keys.len() && keys[j] == keys[i]);
}

/// Keys and values held side by side; the view is the map from each key to
/// its value.
pub struct KeyedTable<T> {
    keys: Vec<u32>,
    vals: Vec<T>,
}

impl<T> View for KeyedTable<T> {
    type V = Map<u32, T>;

    closed spec fn view(&self) -> Map<u32, T> {
        Map::new(|k: u32| self.keys@.contains(k), |k: u32| self.vals@[slot(self.keys@, k)])
    }
}

impl<T> KeyedTable<T> {
    /// Every key has one value and no key occurs twice.
    pub closed spec fn wf(&self) -> bool {
        &&& self.keys@.len() == self.vals@.len()
        &&& self.keys@.no_duplicates()
    }

    /// The number of entries.
    pub closed spec fn count(&self) -> nat {
        self.keys@.len()
    }

    /// A well-formed table has as many entries as its view has keys.
    pub proof fn lemma_count_is_domain_size(&self)
        requires
            self.wf(),
        ensures
            self@.dom().finite(),
            self@.dom().len() == self.count(),
    {
        self.keys@.unique_seq_to_set();
        assert(self@.dom() =~= self.keys@.to_set());
    }

    pub fn new() -> (t: Self)
        ensures
            t.wf(),
            t@ == Map::<u32, T>::empty(),
            t.count() == 0,
    {
        let t = KeyedTable { keys: Vec::new(), vals: Vec::new() };
        assert(t@ =~= Map::<u32, T>::empty());
        t
    }

    pub fn len(&self) -> (n: usize)
        ensures
            n == self.count(),
    {
        self.keys.len()
    }

    fn find(&self, k: u32) -> (r: Option<usize>)
        requires
            self.wf(),
        ensures
            match r {
                Some(i) => i < self.keys@.len() && self.keys@[i as int] == k && slot(
                    self.keys@,
                    k,
                ) == i,
                None => !self.keys@.contains(k),
            },
    {
        let mut i: usize = 0;
        while i < self.keys.len()
            invariant
                i <= self.keys@.len(),
                self.keys@.no_duplicates(),
                forall|j: int| 0 <= j < i ==> self.keys@[j] != k,
            decreases self.keys@.len() - i,
        {
            if self.keys[i] == k {
                proof {
                    lemma_slot_unique(self.keys@, i as int);
                }
                return Some(i);
            }
            i = i + 1;
        }
        None
    }

    pub fn contains(&self, k: u32) -> (b: bool)
        requires
            self.wf(),
        ensures
            b == self@.contains_key(k),
    {
        self.find(k).is_some()
    }

    pub fn get(&self, k: u32) -> (r: Option<&T>)
        requires
            self.wf(),
        ensures
            match r {
                Some(v) => self@.contains_key(k) && *v == self@[k],
                None => !self@.contains_key(k),
            },
    {
        match self.find(k) {
            Some(i) => Some(&self.vals[i]),
            None => None,
        }
    }

    /// Binds `k` to `v` and hands back the value that `k` was bound to before.
    pub fn insert(&mut self, k: u32, v: T) -> (replaced: Option<T>)
        requires
            old(self).wf(),
        ensures
            final(self).wf(),
            final(self)@ == old(self)@.insert(k, v),
            replaced == (if old(self)@.contains_key(k) {
                Some(old(self)@[k])
            } else {
                None
            }),
            final(self).count() == (if old(self)@.contains_key(k) {
                old(self).count()
            } else {
                old(self).count() + 1
            }),
    {
        match self.find(k) {
            Some(i) => {
                self.vals.push(v);
                let prior = self.vals.swap_remove(i);
                proof {
                    assert(self.vals@ =~= old(self).vals@.update(i as int, v));
                    assert forall|q: u32| #[trigger] self.keys@.contains(q) && q != k implies slot(
                        self.keys@,
                        q,
                    ) != i by {
                        let j = slot(self.keys@, q);
                        assert(0 <= j < self.keys@.len() && self.keys@[j] == q);
                    }
                    assert(self@ =~= old(self)@.insert(k, v));
                }
                Some(prior)
            },
            None => {
                self.keys.push(k);
                self.vals.push(v);
                proof {
                    let ks = self.keys@;
                    let n = old(self).keys@.len() as int;
                    assert(ks[n] == k);
                    assert forall|a: int, b: int|
                        0 <= a < ks.len() && 0 <= b < ks.len() && a != b implies ks[a] != ks[b] by {
                        if a < n && b < n {
                            assert(old(self).keys@[a] != old(self).keys@[b]);
                        } else if a < n {
                            assert(old(self).keys@.contains(old(self).keys@[a]));
                        } else {
                            assert(old(self).keys@.contains(old(self).keys@[b]));
                        }
                    }
                    assert forall|q: u32| ks.contains(q) <==> (old(self).keys@.contains(q) || q
                        == k) by {
                        if old(self).keys@.contains(q) {
                            let j = old(self).keys@.index_of(q);
                            assert(ks[j] == q);
                        }
                        if ks.contains(q) && q != k {
                            let j = ks.index_of(q);
                            assert(old(self).keys@[j] == q);
                        }
                    }
                    assert forall|q: u32| old(self).keys@.contains(q) implies slot(ks, q) == slot(
                        old(self).keys@,
                        q,
                    ) by {
                        let j = slot(old(self).keys@, q);
                        assert(0 <= j < n && old(self).keys@[j] == q);
                        assert(ks[j] == q);
                        lemma_slot_unique(ks, j);
                    }
                    lemma_slot_unique(ks, n);
                    assert(self@ =~= old(self)@.insert(k, v));
                }
                None
            },
        }
    }

    /// Takes the entry of `k` out, if there is one.
    pub fn remove(&mut self, k: u32) -> (removed: Option<T>)
        requires
            old(self).wf(),
        ensures
            final(self).wf(),
            final(self)@ == old(self)@.remove(k),
            removed == (if old(self)@.contains_key(k) {
                Some(old(self)@[k])
            } else {
                None
            }),
            final(self).count() == (if old(self)@.contains_key(k) {
                old(self).count() - 1
            } else {
                old(self).count() as int
            }),
    {
        match self.find(k) {
            Some(i) => {
                self.keys.swap_remove(i);
                let v = self.vals.swap_remove(i);
                proof {
                    let ko = old(self).keys@;
                    let ks = self.keys@;
                    let last = ko.len() - 1;
                    assert forall|j: int| 0 <= j < ks.len() implies #[trigger] ks[j] == ko[if j
                        == i {
                        last
                    } else {
                        j
                    }] && self.vals@[j] == old(self).vals@[if j == i {
                        last
                    } else {
                        j
                    }] by {}
                    assert forall|a: int, b: int|
                        0 <= a < ks.len() && 0 <= b < ks.len() && a != b implies ks[a] != ks[b] by {
                        let sa = if a == i { last } else { a };
                        let sb = if b == i { last } else { b };
                        assert(ko[sa] != ko[sb]);
                    }
                    assert forall|q: u32| ks.contains(q) <==> (ko.contains(q) && q != k) by {
                        if ks.contains(q) {
                            let j = ks.index_of(q);
                            let s = if j == i { last } else { j };
                            assert(ko[s] == q);
                            assert(s != i);
                        }
                        if ko.contains(q) && q != k {
                            let s = ko.index_of(q);
                            let j = if s == last { i as int } else { s };
                            assert(s != i);
                            assert(ks[j] == q);
                        }
                    }
                    assert forall|q: u32| ks.contains(q) implies self.vals@[slot(ks, q)] == old(
                        self,
                    ).vals@[slot(ko, q)] by {
                        let j = slot(ks, q);
                        assert(0 <= j < ks.len() && ks[j] == q);
                        let s = if j == i { last } else { j };
                        assert(ko[s] == q);
                        lemma_slot_unique(ko, s);
                    }
                    assert(self@ =~= old(self)@.remove(k));
                }
                Some(v)
            },
            None => {
                proof {
                    assert(self@ =~= old(self)@.remove(k));
                }
                None
            },
        }
    }

    /// Takes one entry out, whichever the table gives up most cheaply.
    pub fn take_any(&mut self) -> (taken: Option<(u32, T)>)
        requires
            old(self).wf(),
        ensures
            final(self).wf(),
            match taken {
                Some((k, v)) => {
                    &&& old(self)@.contains_key(k)
                    &&& old(self)@[k] == v
                    &&& final(self)@ == old(self)@.remove(k)
                    &&& final(self).count() == old(self).count() - 1
                },
                None => {
                    &&& old(self)@ == Map::<u32, T>::empty()
                    &&& old(self).count() == 0
                    &&& *final(self) == *old(self)
                },
            },
    {
        if self.keys.len() == 0 {
            proof {
                assert(self@ =~= Map::<u32, T>::empty());
            }
            return None;
        }
        let k = self.keys.pop().unwrap();
        let v = self.vals.pop().unwrap();
        proof {
            let ko = old(self).keys@;
            let ks = self.keys@;
            let n = ks.len() as int;
            assert(ko[n] == k);
            lemma_slot_unique(ko, n);
            assert forall|q: u32| ks.contains(q) <==> (ko.contains(q) && q != k) by {
                if ks.contains(q) {
                    let j = ks.index_of(q);
                    assert(ko[j] == q);
                }
                if ko.contains(q) && q != k {
                    let s = ko.index_of(q);
                    assert(ks[s] == q);
                }
            }
            assert forall|q: u32| ks.contains(q) implies slot(ks, q) == slot(ko, q) by {
                let j = slot(ks, q);
                assert(0 <= j < n && ks[j] == q);
                assert(ko[j] == q);
                lemma_slot_unique(ko, j);
            }
            assert(self@ =~= old(self)@.remove(k));
        }
        Some((k, v))
    }
}

} // verus!
