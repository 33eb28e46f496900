use vstd::prelude::*;

verus! {

/// A finite set of local slot numbers, kept in strictly increasing order.
pub struct LocalSet {
    items: Vec<usize>,
}

impl View for LocalSet {
    type V = Set<usize>;

    closed spec fn view(&self) -> Set<usize> {
        self.items@.to_set()
    }
}

impl LocalSet {
    /// The members in increasing order.
    pub closed spec fn ordered(&self) -> Seq<usize> {
        self.items@
    }

    /// Well-formedness: strictly increasing members.
    pub closed spec fn wf(&self) -> bool {
        forall|i: int, j: int| 0 <= i < j < self.items@.len() ==> self.items@[i] < self.items@[j]
    }

    pub proof fn lemma_ordered(&self)
        requires
            self.wf(),
        ensures
            forall|i: int, j: int|
                0 <= i < j < self.ordered().len() ==> self.ordered()[i] < self.ordered()[j],
            forall|x: usize| self@.contains(x) <==> self.ordered().contains(x),
            self@.finite(),
            self@.len() == self.ordered().len(),
    {
        self.items@.unique_seq_to_set();
    }

    pub fn new() -> (r: Self)
        ensures
            r.wf(),
            r@ == Set::<usize>::empty(),
    {
        let r = LocalSet { items: Vec::new() };
        assert(r@ =~= Set::<usize>::empty());
        r
    }

    /// The members in increasing order.
    pub fn members(&self) -> (r: &Vec<usize>)
        ensures
            r@ == self.ordered(),
    {
        &self.items
    }

    pub fn len(&self) -> (r: usize)
        requires
            self.wf(),
        ensures
            r == self@.len(),
    {
        proof {
            self.lemma_ordered();
        }
        self.items.len()
    }

    pub fn is_empty(&self) -> (r: bool)
        requires
            self.wf(),
        ensures
            r == (self@ == Set::<usize>::empty()),
    {
        proof {
            self.lemma_ordered();
            if self.items@.len() > 0 {
                assert(self@.contains(self.items@[0]));
            }
        }
        let r = self.items.len() == 0;
        if r {
            assert(self@ =~= Set::<usize>::empty());
        }
        r
    }

    /// Index of the first member not below `x`.
    fn lower_bound(&self, x: usize) -> (p: usize)
        requires
            self.wf(),
        ensures
            p <= self.items@.len(),
            forall|j: int| 0 <= j < p ==> self.items@[j] < x,
            p < self.items@.len() ==> self.items@[p as int] >= x,
    {
        let mut p: usize = 0;
        while p < self.items.len() && self.items[p] < x
            invariant
                p <= self.items@.len(),
                forall|j: int| 0 <= j < p ==> self.items@[j] < x,
            decreases self.items@.len() - p,
        {
            p = p + 1;
        }
        p
    }

    pub fn contains(&self, x: usize) -> (r: bool)
        requires
            self.wf(),
        ensures
            r == self@.contains(x),
    {
        let p = self.lower_bound(x);
        let r = p < self.items.len() && self.items[p] == x;
        proof {
            if !r {
                assert forall|j: int| 0 <= j < self.items@.len() implies self.items@[j] != x by {
                    if j >= p {
                        assert(self.items@[j] >= self.items@[p as int]);
                    }
                }
            }
        }
        r
    }

    pub fn insert(&mut self, x: usize)
        requires
            old(self).wf(),
        ensures
            final(self).wf(),
            final(self)@ == old(self)@.insert(x),
    {
        let p = self.lower_bound(x);
        if p < self.items.len() && self.items[p] == x {
            assert(self@ =~= old(self)@.insert(x));
            return;
        }
        self.items.insert(p, x);
        proof {
            let o = old(self).items@;
            assert(self.items@ =~= o.insert(p as int, x));
            assert forall|i: int, j: int| 0 <= i < j < self.items@.len() implies self.items@[i]
                < self.items@[j] by {
                if i < p && j > p {
                    assert(o[j - 1] >= o[p as int] || p == o.len());
                }
            }
            assert(self@ =~= old(self)@.insert(x)) by {
                assert forall|y: usize| self@.contains(y) <==> old(self)@.insert(x).contains(y) by {
                    assert(self.items@[p as int] == x);
                    if old(self)@.contains(y) {
                        let k = choose|k: int| 0 <= k < o.len() && o[k] == y;
                        if k < p {
                            assert(self.items@[k] == y);
                        } else {
                            assert(self.items@[k + 1] == y);
                        }
                    }
                    if self@.contains(y) {
                        let k = choose|k: int| 0 <= k < self.items@.len() && self.items@[k] == y;
                        if k < p {
                            assert(o[k] == y);
                        } else if k > p {
                            assert(o[k - 1] == y);
                        }
                    }
                }
            }
        }
    }

    pub fn remove(&mut self, x: usize)
        requires
            old(self).wf(),
        ensures
            final(self).wf(),
            final(self)@ == old(self)@.remove(x),
    {
        let p = self.lower_bound(x);
        if p < self.items.len() && self.items[p] == x {
            self.items.remove(p);
            proof {
                let o = old(self).items@;
                assert(self.items@ =~= o.remove(p as int));
                assert forall|i: int, j: int| 0 <= i < j < self.items@.len() implies self.items@[i]
                    < self.items@[j] by {
                    if i < p && j >= p {
                        assert(o[i] < o[j + 1]);
                    }
                }
                assert(self@ =~= old(self)@.remove(x)) by {
                    assert forall|y: usize| self@.contains(y) <==> old(self)@.remove(x).contains(y) by {
                        if old(self)@.remove(x).contains(y) {
                            let k = choose|k: int| 0 <= k < o.len() && o[k] == y;
                            if k < p {
                                assert(self.items@[k] == y);
                            } else {
                                assert(k != p);
                                assert(self.items@[k - 1] == y);
                            }
                        }
                        if self@.contains(y) {
                            let k = choose|k: int| 0 <= k < self.items@.len() && self.items@[k] == y;
                            if k < p {
                                assert(o[k] == y);
                                assert(o[k] < o[p as int]);
                            } else {
                                assert(o[k + 1] == y);
                                assert(o[p as int] < o[k + 1]);
                            }
                        }
                    }
                }
            }
        } else {
            proof {
                assert forall|j: int| 0 <= j < self.items@.len() implies self.items@[j] != x by {
                    if j >= p {
                        assert(self.items@[j] >= self.items@[p as int]);
                    }
                }
            }
            assert(self@ =~= old(self)@.remove(x));
        }
    }

    pub fn copy(&self) -> (r: Self)
        requires
            self.wf(),
        ensures
            r.wf(),
            r@ == self@,
            r.ordered() == self.ordered(),
    {
        LocalSet { items: self.items.clone() }
    }

    /// Members of both sets.
    pub fn intersect(&self, other: &Self) -> (r: Self)
        requires
            self.wf(),
            other.wf(),
        ensures
            r.wf(),
            r@ == self@.intersect(other@),
    {
        let mut out: Vec<usize> = Vec::new();
        let mut i: usize = 0;
        while i < self.items.len()
            invariant
                self.wf(),
                other.wf(),
                i <= self.items@.len(),
                forall|a: int, b: int| 0 <= a < b < out@.len() ==> out@[a] < out@[b],
                out@.len() > 0 ==> i > 0 && out@.last() <= self.items@[i - 1],
                forall|y: usize|
                    out@.contains(y) <==> (self.items@.take(i as int).contains(y) && other@.contains(y)),
            decreases self.items@.len() - i,
        {
            let x = self.items[i];
            let ghost old_out = out@;
            proof {
                assert(self.items@.take(i + 1) =~= self.items@.take(i as int).push(x));
            }
            if other.contains(x) {
                proof {
                    if out@.len() > 0 {
                        assert(self.items@[i - 1] < self.items@[i as int]);
                    }
                }
                out.push(x);
                assert forall|y: usize| out@.contains(y) <==> (self.items@.take(i + 1).contains(y)
                    && other@.contains(y)) by {
                    if out@.contains(y) && y != x {
                        let k = choose|k: int| 0 <= k < out@.len() && out@[k] == y;
                        assert(old_out[k] == y);
                    }
                    if old_out.contains(y) {
                        let k = choose|k: int| 0 <= k < old_out.len() && old_out[k] == y;
                        assert(out@[k] == y);
                    }
                    assert(out@[out@.len() - 1] == x);
                    assert(self.items@.take(i + 1)[i as int] == x);
                    if self.items@.take(i as int).contains(y) {
                        let k = choose|k: int| 0 <= k < i && #[trigger] self.items@.take(i as int)[k] == y;
                        assert(self.items@.take(i + 1)[k] == y);
                    }
                    if self.items@.take(i + 1).contains(y) && y != x {
                        let k = choose|k: int| 0 <= k < i + 1 && #[trigger] self.items@.take(i + 1)[k] == y;
                        assert(self.items@.take(i as int)[k] == y);
                    }
                }
            } else {
                assert forall|y: usize| out@.contains(y) <==> (self.items@.take(i + 1).contains(y)
                    && other@.contains(y)) by {
                    if self.items@.take(i + 1).contains(y) && y != x {
                        let k = choose|k: int| 0 <= k < i + 1 && #[trigger] self.items@.take(i + 1)[k] == y;
                        assert(self.items@.take(i as int)[k] == y);
                    }
                }
            }
            i = i + 1;
        }
        assert(self.items@.take(i as int) =~= self.items@);
        let r = LocalSet { items: out };
        assert(r@ =~= self@.intersect(other@));
        r
    }

    /// Add every member of `other`.
    pub fn extend(&mut self, other: &Self)
        requires
            old(self).wf(),
            other.wf(),
        ensures
            final(self).wf(),
            final(self)@ == old(self)@ + other@,
    {
        let mut i: usize = 0;
        assert(other.items@.take(0).to_set() =~= Set::<usize>::empty());
        assert(self@ =~= old(self)@ + other.items@.take(0).to_set());
        while i < other.items.len()
            invariant
                self.wf(),
                other.wf(),
                i <= other.items@.len(),
                self@ == old(self)@ + other.items@.take(i as int).to_set(),
            decreases other.items@.len() - i,
        {
            let x = other.items[i];
            self.insert(x);
            proof {
                assert(other.items@.take(i + 1) =~= other.items@.take(i as int).push(x));
                assert(other.items@.take(i + 1).to_set() =~= other.items@.take(i as int).to_set().insert(x)) by {
                    assert forall|y: usize| other.items@.take(i + 1).to_set().contains(y) <==> other.items@.take(i as int).to_set().insert(x).contains(y) by {
                        let t1 = other.items@.take(i + 1);
                        let t0 = other.items@.take(i as int);
                        if t1.contains(y) && y != x {
                            let k = choose|k: int| 0 <= k < t1.len() && t1[k] == y;
                            assert(t0[k] == y);
                        }
                        if t0.contains(y) {
                            let k = choose|k: int| 0 <= k < t0.len() && t0[k] == y;
                            assert(t1[k] == y);
                        }
                        assert(t1[i as int] == x);
                    }
                }
                assert(self@ =~= old(self)@ + other.items@.take(i + 1).to_set());
            }
            i = i + 1;
        }
        assert(other.items@.take(i as int) =~= other.items@);
    }

    /// Whether both sets have the same members.
    pub fn same(&self, other: &Self) -> (r: bool)
        requires
            self.wf(),
            other.wf(),
        ensures
            r == (self@ == other@),
    {
        let mut i: usize = 0;
        while i < self.items.len()
            invariant
                self.wf(),
                other.wf(),
                i <= self.items@.len(),
                forall|j: int| 0 <= j < i ==> other@.contains(self.items@[j]),
            decreases self.items@.len() - i,
        {
            if !other.contains(self.items[i]) {
                assert(self@.contains(self.items@[i as int]));
                return false;
            }
            i = i + 1;
        }
        let mut k: usize = 0;
        while k < other.items.len()
            invariant
                self.wf(),
                other.wf(),
                k <= other.items@.len(),
                forall|j: int| 0 <= j < k ==> self@.contains(other.items@[j]),
            decreases other.items@.len() - k,
        {
            if !self.contains(other.items[k]) {
                assert(other@.contains(other.items@[k as int]));
                return false;
            }
            k = k + 1;
        }
        assert(self@ =~= other@);
        true
    }
}

} // verus!
