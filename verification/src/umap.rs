use vstd::prelude::*;

verus! {

/// Looks a key up in a sequence of key-value pairs, front to back.
pub open spec fn seq_find<V>(s: Seq<(u128, V)>, k: u128) -> Option<V>
    decreases s.len(),
{
    if s.len() == 0 {
        Option::None
    } else if s[0].0 == k {
        Option::Some(s[0].1)
    } else {
        seq_find(s.drop_first(), k)
    }
}

proof fn lemma_find_at<V>(s: Seq<(u128, V)>, k: u128, i: int)
    requires
        0 <= i < s.len(),
        s[i].0 == k,
        forall|j: int| 0 <= j < i ==> s[j].0 != k,
    ensures
        seq_find(s, k) == Option::Some(s[i].1),
    decreases i,
{
    if i > 0 {
        lemma_find_at(s.drop_first(), k, i - 1);
    }
}

proof fn lemma_find_none<V>(s: Seq<(u128, V)>, k: u128)
    requires
        forall|j: int| 0 <= j < s.len() ==> s[j].0 != k,
    ensures
        seq_find(s, k) is None,
    decreases s.len(),
{
    if s.len() > 0 {
        lemma_find_none(s.drop_first(), k);
    }
}

proof fn lemma_find_push<V>(s: Seq<(u128, V)>, p: (u128, V), q: u128)
    ensures
        seq_find(s.push(p), q) == (if seq_find(s, q) is Some {
            seq_find(s, q)
        } else if p.0 == q {
            Option::Some(p.1)
        } else {
            Option::<V>::None
        }),
    decreases s.len(),
{
    if s.len() == 0 {
        assert(s.push(p)[0] == p);
        assert(s.push(p).drop_first() =~= Seq::<(u128, V)>::empty());
        assert(seq_find(s, q) is None);
        assert(seq_find(s.push(p).drop_first(), q) is None);
        if p.0 == q {
            assert(seq_find(s.push(p), q) == Option::Some(p.1));
        } else {
            assert(seq_find(s.push(p), q) is None);
        }
    } else {
        assert(s.push(p)[0] == s[0]);
        assert(s.push(p).drop_first() =~= s.drop_first().push(p));
        lemma_find_push(s.drop_first(), p, q);
        if s[0].0 == q {
            assert(seq_find(s, q) == Option::Some(s[0].1));
            assert(seq_find(s.push(p), q) == Option::Some(s[0].1));
        } else {
            assert(seq_find(s, q) == seq_find(s.drop_first(), q));
            assert(seq_find(s.push(p), q) == seq_find(s.drop_first().push(p), q));
        }
    }
}

proof fn lemma_find_update<V>(s: Seq<(u128, V)>, i: int, p: (u128, V), q: u128)
    requires
        0 <= i < s.len(),
    ensures
        q != p.0 && q != s[i].0 ==> seq_find(s.update(i, p), q) == seq_find(s, q),
        q == p.0 && (forall|j: int| 0 <= j < s.len() && j != i ==> s[j].0 != q)
            ==> seq_find(s.update(i, p), q) == Option::Some(p.1),
    decreases i,
{
    let t = s.update(i, p);
    if i == 0 {
        assert(t[0] == p);
        assert(t.drop_first() =~= s.drop_first());
    } else {
        assert(t[0] == s[0]);
        assert(t.drop_first() =~= s.drop_first().update(i - 1, p));
        lemma_find_update(s.drop_first(), i - 1, p, q);
    }
}

proof fn lemma_find_remove<V>(s: Seq<(u128, V)>, i: int, q: u128)
    requires
        0 <= i < s.len(),
    ensures
        q != s[i].0 ==> seq_find(s.remove(i), q) == seq_find(s, q),
        q == s[i].0 && (forall|j: int| 0 <= j < s.len() && j != i ==> s[j].0 != q)
            ==> seq_find(s.remove(i), q) is None,
    decreases i,
{
    let t = s.remove(i);
    if i == 0 {
        assert(t =~= s.drop_first());
        if q == s[i].0 && (forall|j: int| 0 <= j < s.len() && j != i ==> s[j].0 != q) {
            assert(forall|j: int| 0 <= j < t.len() ==> t[j] == s[j + 1] && t[j].0 != q);
            lemma_find_none(t, q);
        }
    } else {
        assert(t[0] == s[0]);
        assert(t.drop_first() =~= s.drop_first().remove(i - 1));
        lemma_find_remove(s.drop_first(), i - 1, q);
    }
}

/// An association from 128-bit identifiers to values, backed by a vector of
/// pairs whose keys are pairwise distinct.
pub struct UidMap<V> {
    pairs: Vec<(u128, V)>,
}

impl<V> UidMap<V> {
    /// Distinctness of the stored keys; every operation preserves it.
    pub closed spec fn wf(self) -> bool {
        forall|i: int, j: int|
            0 <= i < j < self.pairs@.len() ==> self.pairs@[i].0 != self.pairs@[j].0
    }

    /// The mathematical map this container represents.
    pub closed spec fn view_map(self) -> Map<u128, V> {
        Map::new(
            |k: u128| seq_find(self.pairs@, k) is Some,
            |k: u128| seq_find(self.pairs@, k)->Some_0,
        )
    }

    /// The number of stored pairs.
    pub closed spec fn spec_len(self) -> nat {
        self.pairs@.len()
    }

    /// An empty map.
    pub fn new() -> (r: Self)
        ensures
            r.wf(),
            r.view_map() =~= Map::<u128, V>::empty(),
            r.spec_len() == 0,
    {
        let r = UidMap { pairs: Vec::new() };
        proof {
            assert forall|k: u128| !(#[trigger] seq_find(r.pairs@, k) is Some) by {
                lemma_find_none(r.pairs@, k);
            }
        }
        r
    }

    /// Whether a key is present.
    pub fn contains_key(&self, k: u128) -> (r: bool)
        requires
            self.wf(),
        ensures
            r == self.view_map().dom().contains(k),
    {
        self.get(k).is_some()
    }

    /// The value stored under a key, if any.
    pub fn get(&self, k: u128) -> (r: Option<&V>)
        requires
            self.wf(),
        ensures
            match r {
                Option::Some(v) => self.view_map().dom().contains(k) && *v == self.view_map()[k],
                Option::None => !self.view_map().dom().contains(k),
            },
    {
        let n = self.pairs.len();
        let mut i: usize = 0;
        while i < n
            invariant
                n == self.pairs@.len(),
                0 <= i <= n,
                forall|j: int| 0 <= j < i ==> self.pairs@[j].0 != k,
        decreases n - i,
        {
            if self.pairs[i].0 == k {
                proof {
                    lemma_find_at(self.pairs@, k, i as int);
                }
                return Option::Some(&self.pairs[i].1);
            }
            i += 1;
        }
        proof {
            lemma_find_none(self.pairs@, k);
        }
        Option::None
    }

    /// Stores a value under a key, replacing any previous value.
    pub fn insert(&mut self, k: u128, v: V)
        requires
            old(self).wf(),
        ensures
            final(self).wf(),
            final(self).view_map() =~= old(self).view_map().insert(k, v),
            final(self).spec_len() == if old(self).view_map().dom().contains(k) {
                old(self).spec_len()
            } else {
                old(self).spec_len() + 1
            },
    {
        let n = self.pairs.len();
        let mut i: usize = 0;
        while i < n
            invariant
                self == old(self),
                self.wf(),
                n == self.pairs@.len(),
                0 <= i <= n,
                forall|j: int| 0 <= j < i ==> self.pairs@[j].0 != k,
        decreases n - i,
        {
            if self.pairs[i].0 == k {
                let ghost s0 = self.pairs@;
                proof {
                    lemma_find_at(s0, k, i as int);
                    assert forall|j: int| 0 <= j < s0.len() && j != i implies s0[j].0 != k by {
                        if j > i {
                            assert(s0[i as int].0 != s0[j].0);
                        }
                    }
                    assert forall|q: u128|
                        seq_find(s0.update(i as int, (k, v)), q) == (if q == k {
                            Option::Some(v)
                        } else {
                            seq_find(s0, q)
                        }) by {
                        lemma_find_update(s0, i as int, (k, v), q);
                    }
                }
                self.pairs.set(i, (k, v));
                proof {
                    assert(forall|m: int| 0 <= m < self.pairs@.len() ==> self.pairs@[m].0 == s0[m].0);
                }
                return ;
            }
            i += 1;
        }
        proof {
            lemma_find_none(self.pairs@, k);
            assert forall|q: u128|
                seq_find(self.pairs@.push((k, v)), q) == (if q == k {
                    Option::Some(v)
                } else {
                    seq_find(self.pairs@, q)
                }) by {
                lemma_find_push(self.pairs@, (k, v), q);
            }
        }
        self.pairs.push((k, v));
    }

    /// Removes and returns the value stored under a key, if any.
    pub fn remove(&mut self, k: u128) -> (r: Option<V>)
        requires
            old(self).wf(),
        ensures
            final(self).wf(),
            match r {
                Option::Some(v) => old(self).view_map().dom().contains(k) && v == old(
                    self,
                ).view_map()[k] && final(self).view_map() =~= old(self).view_map().remove(k)
                    && final(self).spec_len() + 1 == old(self).spec_len(),
                Option::None => !old(self).view_map().dom().contains(k) && *final(self) == *old(self),
            },
    {
        let n = self.pairs.len();
        let mut i: usize = 0;
        while i < n
            invariant
                self == old(self),
                self.wf(),
                n == self.pairs@.len(),
                0 <= i <= n,
                forall|j: int| 0 <= j < i ==> self.pairs@[j].0 != k,
        decreases n - i,
        {
            if self.pairs[i].0 == k {
                let ghost s0 = self.pairs@;
                proof {
                    lemma_find_at(s0, k, i as int);
                    assert forall|j: int| 0 <= j < s0.len() && j != i implies s0[j].0 != k by {
                        if j > i {
                            assert(s0[i as int].0 != s0[j].0);
                        }
                    }
                    assert forall|q: u128|
                        seq_find(s0.remove(i as int), q) == (if q == k {
                            Option::<V>::None
                        } else {
                            seq_find(s0, q)
                        }) by {
                        lemma_find_remove(s0, i as int, q);
                    }
                }
                let p = self.pairs.remove(i);
                proof {
                    assert forall|a: int, b: int|
                        0 <= a < b < self.pairs@.len() implies self.pairs@[a].0
                        != self.pairs@[b].0 by {
                        let a0: int = if a < i { a } else { a + 1 };
                        let b0: int = if b < i { b } else { b + 1 };
                        assert(self.pairs@[a] == s0[a0]);
                        assert(self.pairs@[b] == s0[b0]);
                        assert(s0[a0].0 != s0[b0].0);
                    }
                }
                return Option::Some(p.1);
            }
            i += 1;
        }
        proof {
            lemma_find_none(self.pairs@, k);
        }
        Option::None
    }
}

} // verus!
