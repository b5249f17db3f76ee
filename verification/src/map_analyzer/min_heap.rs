//! A binary min-heap of `u64` keys, the priority queue of the altitude computation.
use vstd::prelude::*;
use vstd::multiset::Multiset;

verus! {

broadcast use {vstd::seq_lib::group_to_multiset_ensures, vstd::multiset::group_multiset_axioms};

/// The index of the parent of heap slot `i`.
pub open spec fn parent(i: int) -> int {
    (i - 1) / 2
}

/// Every key is at least its parent.
pub open spec fn heap_ok(s: Seq<u64>) -> bool {
    forall|i: int| 0 < i < s.len() ==> s[parent(i)] <= #[trigger] s[i]
}

/// The heap order holds except between slot `c` and its children, and `c`'s parent is
/// at most those children.
pub open spec fn heap_except_down(s: Seq<u64>, c: int) -> bool {
    &&& forall|i: int| 0 < i < s.len() && parent(i) != c ==> s[parent(i)] <= #[trigger] s[i]
    &&& c > 0 ==> forall|i: int| 0 < i < s.len() && parent(i) == c ==> s[parent(c)] <= #[trigger] s[i]
}

/// The heap order holds except between slot `c` and its parent, and `c`'s parent is at most
/// `c`'s children.
pub open spec fn heap_except_up(s: Seq<u64>, c: int) -> bool {
    &&& forall|i: int| 0 < i < s.len() && i != c ==> s[parent(i)] <= #[trigger] s[i]
    &&& c > 0 ==> forall|i: int| 0 < i < s.len() && parent(i) == c ==> s[parent(c)] <= #[trigger] s[i]
}

/// The least key of a multiset.
pub open spec fn least(h: Multiset<u64>) -> u64 {
    choose|e: u64| h.contains(e) && forall|f: u64| h.contains(f) ==> e <= f
}

/// A key of `h` that is at most every key of `h` is `least(h)`.
pub proof fn lemma_least(h: Multiset<u64>, e: u64)
    requires
        h.contains(e),
        forall|f: u64| h.contains(f) ==> e <= f,
    ensures
        least(h) == e,
{
    let l = least(h);
    assert(h.contains(l) && forall|f: u64| h.contains(f) ==> l <= f);
    assert(l <= e && e <= l);
}

/// In a heap, the first key is at most every key.
pub proof fn lemma_root_least(s: Seq<u64>, i: int)
    requires
        heap_ok(s),
        0 <= i < s.len(),
    ensures
        s[0] <= s[i],
    decreases i,
{
    if i > 0 {
        lemma_root_least(s, parent(i));
        assert(s[parent(i)] <= s[i]);
    }
}

/// Swapping two slots keeps the keys.
pub proof fn lemma_swap_multiset(s: Seq<u64>, i: int, j: int)
    requires
        0 <= i < s.len(),
        0 <= j < s.len(),
    ensures
        s.update(i, s[j]).update(j, s[i]).to_multiset() == s.to_multiset(),
{
    let s1 = s.update(i, s[j]);
    assert(s1.to_multiset() == s.to_multiset().insert(s[j]).remove(s[i]));
    assert(s1.update(j, s[i]).to_multiset() == s1.to_multiset().insert(s[i]).remove(s1[j]));
    assert(s1[j] == s[j]);
    assert(s1.update(j, s[i]).to_multiset() =~= s.to_multiset());
}

/// A binary min-heap of keys: each key is at least the key of its parent slot.
pub struct MinHeap {
    items: Vec<u64>,
}

impl View for MinHeap {
    type V = Multiset<u64>;

    closed spec fn view(&self) -> Multiset<u64> {
        self.items@.to_multiset()
    }
}

impl MinHeap {
    /// The keys are in heap order.
    pub closed spec fn wf(&self) -> bool {
        heap_ok(self.items@)
    }

    /// An empty heap.
    pub fn new() -> (r: Self)
        ensures
            r.wf(),
            r@ =~= Multiset::<u64>::empty(),
    {
        let r = MinHeap { items: Vec::new() };
        assert(r.items@.to_multiset().len() == 0);
        r
    }

    /// The number of keys.
    pub fn len(&self) -> (r: usize)
        ensures
            r == self@.len(),
    {
        self.items.len()
    }

    /// Adds key `k`.
    pub fn push(&mut self, k: u64)
        requires
            old(self).wf(),
        ensures
            final(self).wf(),
            final(self)@ == old(self)@.insert(k),
    {
        let ghost keys = self.items@.push(k).to_multiset();
        self.items.push(k);
        let mut c: usize = self.items.len() - 1;
        while c > 0
            invariant
                0 <= c < self.items@.len(),
                heap_except_up(self.items@, c as int),
                self.items@.to_multiset() == keys,
            decreases c,
        {
            let p = (c - 1) / 2;
            if self.items[c] < self.items[p] {
                let ghost s = self.items@;
                let vc = self.items[c];
                let vp = self.items[p];
                self.items.set(c, vp);
                self.items.set(p, vc);
                proof {
                    lemma_swap_multiset(s, c as int, p as int);
                    assert(self.items@ == s.update(c as int, s[p as int]).update(p as int, s[c as int]));
                    let t = self.items@;
                    assert forall|i: int| 0 < i < t.len() && i != p implies t[parent(i)] <= #[trigger] t[i] by {
                        if i == c {
                        } else if parent(i) == c {
                            assert(s[parent(c as int)] <= s[i]);
                        } else if parent(i) == p {
                            assert(s[p as int] <= s[i]);
                        } else if i == p {
                        } else {
                            assert(s[parent(i)] <= s[i]);
                        }
                    }
                    if p > 0 {
                        assert forall|i: int| 0 < i < t.len() && parent(i) == p implies t[parent(p as int)] <= #[trigger] t[i] by {
                            assert(s[parent(p as int)] <= s[p as int]);
                            if i != c {
                                assert(s[p as int] <= s[i]);
                            }
                        }
                    }
                }
                c = p;
            } else {
                proof {
                    let t = self.items@;
                    assert forall|i: int| 0 < i < t.len() implies t[parent(i)] <= #[trigger] t[i] by {
                        if i == c {
                        }
                    }
                }
                c = 0;
            }
        }
        proof {
            let t = self.items@;
            assert forall|i: int| 0 < i < t.len() implies t[parent(i)] <= #[trigger] t[i] by {
            }
        }
    }

    /// Removes and returns the least key.
    pub fn pop_min(&mut self) -> (r: u64)
        requires
            old(self).wf(),
            old(self)@.len() > 0,
        ensures
            final(self).wf(),
            r == least(old(self)@),
            old(self)@.contains(r),
            final(self)@ == old(self)@.remove(r),
    {
        let ghost s0 = self.items@;
        proof {
            assert forall|f: u64| s0.to_multiset().contains(f) implies s0[0] <= f by {
                let j = choose|j: int| 0 <= j < s0.len() && s0[j] == f;
                lemma_root_least(s0, j);
            }
            assert(s0.len() > 0);
            assert(s0.to_multiset().contains(s0[0]));
            lemma_least(s0.to_multiset(), s0[0]);
        }
        let top = self.items[0];
        let last = self.items.pop().unwrap();
        proof {
            assert(s0 == s0.drop_last().push(last));
        }
        if self.items.len() == 0 {
            assert(s0.len() == 1);
            assert(s0.drop_last().to_multiset() =~= s0.to_multiset().remove(top));
            return top;
        }
        let ghost s1 = self.items@;
        self.items.set(0, last);
        let ghost target = s0.to_multiset().remove(top);
        proof {
            assert(s1.update(0, last).to_multiset() == s1.to_multiset().insert(last).remove(s1[0]));
            assert(s1[0] == top);
            assert(self.items@.to_multiset() =~= target);
            let t = self.items@;
            assert forall|i: int| 0 < i < t.len() && parent(i) != 0 implies t[parent(i)] <= #[trigger] t[i] by {
                assert(s0[parent(i)] <= s0[i]);
            }
        }
        let len = self.items.len();
        let mut c: usize = 0;
        let mut done = false;
        while !done
            invariant
                len == self.items@.len(),
                0 <= c < len,
                self.items@.to_multiset() == target,
                done ==> heap_ok(self.items@),
                !done ==> heap_except_down(self.items@, c as int),
            decreases (len - c) * 2 + (if done { 0int } else { 1int }),
        {
            if c >= len / 2 {
                proof {
                    let t = self.items@;
                    assert forall|i: int| 0 < i < t.len() implies t[parent(i)] <= #[trigger] t[i] by {
                        if parent(i) == c {
                            assert(i >= 2 * c + 1);
                        }
                    }
                }
                done = true;
            } else {
                let l = 2 * c + 1;
                let r = l + 1;
                let mut m = l;
                if r < len && self.items[r] < self.items[l] {
                    m = r;
                }
                if self.items[m] < self.items[c] {
                    let ghost s = self.items@;
                    let vc = self.items[c];
                    let vm = self.items[m];
                    self.items.set(c, vm);
                    self.items.set(m, vc);
                    proof {
                        lemma_swap_multiset(s, c as int, m as int);
                        assert(self.items@ == s.update(c as int, s[m as int]).update(m as int, s[c as int]));
                        let t = self.items@;
                        assert(parent(l as int) == c);
                        assert(parent(r as int) == c);
                        assert forall|i: int| 0 < i < t.len() && parent(i) != m implies t[parent(i)] <= #[trigger] t[i] by {
                            if i == m {
                            } else if parent(i) == c {
                                assert(i == l || i == r);
                            } else if i == c {
                                assert(s[parent(c as int)] <= s[m as int]);
                            } else {
                                assert(s[parent(i)] <= s[i]);
                            }
                        }
                        assert forall|i: int| 0 < i < t.len() && parent(i) == m implies t[parent(m as int)] <= #[trigger] t[i] by {
                            assert(s[m as int] <= s[i]);
                        }
                    }
                    c = m;
                } else {
                    proof {
                        let t = self.items@;
                        assert forall|i: int| 0 < i < t.len() implies t[parent(i)] <= #[trigger] t[i] by {
                            if parent(i) == c {
                                assert(i == l || i == r);
                            }
                        }
                    }
                    done = true;
                }
            }
        }
        top
    }
}

} // verus!
