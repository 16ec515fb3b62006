//! The handle allocator: hands out the smallest non-negative integer not
//! currently in use, so released handles are recycled first and the live
//! handle space stays dense. Directory handles and file handles are drawn
//! from this single shared namespace.

use vstd::prelude::*;

verus! {

/// A handle naming one open directory stream or one open file for the
/// duration of a single open/use/release cycle.
#[derive(Debug, PartialEq, Eq, PartialOrd, Ord, Clone, Copy, Structural)]
pub struct Fh(u64);

impl Fh {
    /// The numeric value of this handle.
    pub closed spec fn spec_value(self) -> u64 {
        self.0
    }

    #[verifier::when_used_as_spec(spec_value)]
    pub fn value(self) -> (v: u64)
        ensures
            v == self.spec_value(),
    {
        self.0
    }

    /// The handle with the given numeric value.
    pub fn from_value(v: u64) -> (h: Fh)
        ensures
            h.value() == v,
    {
        Fh(v)
    }
}

/// Tracks the set of in-use handle values as a strictly increasing vector
/// and always allocates the smallest value not in the set (first-fit reuse).
pub struct HandleAllocator {
    inuse: Vec<u64>,
}

impl HandleAllocator {
    /// The in-use vector is strictly increasing, so it represents a set.
    pub closed spec fn wf(self) -> bool {
        forall|i: int, j: int|
            0 <= i < j < self.inuse@.len() ==> self.inuse@[i] < self.inuse@[j]
    }

    /// Whether handle value `h` is currently allocated.
    pub closed spec fn in_use(self, h: u64) -> bool {
        self.inuse@.contains(h)
    }

    /// A fresh allocator with no handle in use.
    pub fn new() -> (a: HandleAllocator)
        ensures
            a.wf(),
            forall|h: u64| !a.in_use(h),
    {
        let a = HandleAllocator { inuse: Vec::new() };
        proof {
            assert forall|h: u64| !a.in_use(h) by {
                assert(a.inuse@.len() == 0);
            }
        }
        a
    }

    /// Allocate the smallest handle value not currently in use: the first
    /// position of the ordered in-use set whose index differs from its value,
    /// or the set's size if there is no such gap.
    pub fn acquire(&mut self) -> (h: Fh)
        requires
            old(self).wf(),
        ensures
            final(self).wf(),
            !old(self).in_use(h.value()),
            forall|j: u64| j < h.value() ==> old(self).in_use(j),
            forall|j: u64|
                final(self).in_use(j) <==> old(self).in_use(j) || j == h.value(),
    {
        let n = self.inuse.len();
        let mut i: usize = 0;
        while i < n && self.inuse[i] == i as u64
            invariant
                i <= n,
                n == self.inuse@.len(),
                self == old(self),
                forall|k: int| 0 <= k < i ==> self.inuse@[k] == k as u64,
            decreases n - i,
        {
            i += 1;
        }
        let hv = i as u64;
        proof {
            // Every element below position i equals its index, hence is < hv;
            // every element at or above position i is > hv.
            if i < n {
                if i > 0 {
                    assert(self.inuse@[i as int - 1] < self.inuse@[i as int]);
                }
                assert(self.inuse@[i as int] > hv);
            }
            assert forall|k: int| 0 <= k < n implies self.inuse@[k] != hv by {
                if k < i {
                    assert(self.inuse@[k] == k as u64);
                } else {
                    assert(i < n);
                    if k > i {
                        assert(self.inuse@[i as int] < self.inuse@[k]);
                    }
                }
            }
            assert(!old(self).in_use(hv));
            assert forall|j: u64| j < hv implies old(self).in_use(j) by {
                assert(self.inuse@[j as int] == j);
            }
        }
        let ghost pre = self.inuse@;
        self.inuse.insert(i, hv);
        proof {
            let post = self.inuse@;
            assert(post == pre.insert(i as int, hv));
            assert(post.len() == pre.len() + 1);
            assert forall|k: int| 0 <= k < post.len() implies post[k] == (
                if k < i {
                    pre[k]
                } else if k == i {
                    hv
                } else {
                    pre[k - 1]
                }
            ) by {}
            // Strictly increasing again.
            assert forall|a: int, b: int|
                0 <= a < b < post.len() implies post[a] < post[b] by {
                if a < i && b < i {
                } else if a < i && b == i {
                    assert(pre[a] == a as u64);
                } else if a < i && b > i {
                    assert(pre[a] == a as u64);
                    if b - 1 > i {
                        assert(pre[i as int] < pre[b - 1]);
                    }
                } else if a == i {
                    if b - 1 == i {
                        assert(pre[i as int] > hv);
                    } else {
                        assert(pre[i as int] < pre[b - 1]);
                        assert(pre[i as int] > hv);
                    }
                } else {
                }
            }
            // Membership is the old membership plus hv.
            assert forall|j: u64|
                final(self).in_use(j) <==> old(self).in_use(j) || j == hv by {
                if post.contains(j) {
                    let k = choose|k: int| 0 <= k < post.len() && post[k] == j;
                    if k < i {
                        assert(pre[k] == j);
                        assert(pre.contains(j));
                    } else if k == i {
                    } else {
                        assert(pre[k - 1] == j);
                        assert(pre.contains(j));
                    }
                }
                if j == hv {
                    assert(post[i as int] == hv);
                    assert(post.contains(j));
                }
                if pre.contains(j) {
                    let k = choose|k: int| 0 <= k < pre.len() && pre[k] == j;
                    if k < i {
                        assert(post[k] == j);
                    } else {
                        assert(post[k + 1] == j);
                    }
                    assert(post.contains(j));
                }
            }
        }
        Fh(hv)
    }

    /// Remove `h` from the in-use set. Returns whether it was actually
    /// present; absence is a bookkeeping inconsistency the caller may log,
    /// never a failure.
    pub fn release(&mut self, h: Fh) -> (present: bool)
        requires
            old(self).wf(),
        ensures
            final(self).wf(),
            present == old(self).in_use(h.value()),
            forall|j: u64|
                final(self).in_use(j) <==> old(self).in_use(j) && j != h.value(),
    {
        let n = self.inuse.len();
        let hv = h.value();
        let mut i: usize = 0;
        while i < n && self.inuse[i] != hv
            invariant
                i <= n,
                n == self.inuse@.len(),
                self == old(self),
                forall|k: int| 0 <= k < i ==> self.inuse@[k] != hv,
            decreases n - i,
        {
            i += 1;
        }
        if i < n {
            proof {
                assert(self.inuse@[i as int] == hv);
                assert(self.inuse@.contains(hv));
                // hv occurs only at position i.
                assert forall|k: int|
                    0 <= k < n && k != i implies self.inuse@[k] != hv by {
                    if k > i {
                        assert(self.inuse@[i as int] < self.inuse@[k]);
                    }
                }
            }
            let ghost pre = self.inuse@;
            self.inuse.remove(i);
            proof {
                let post = self.inuse@;
                assert(post == pre.remove(i as int));
                assert(post.len() == pre.len() - 1);
                assert forall|k: int| 0 <= k < post.len() implies post[k] == (
                    if k < i {
                        pre[k]
                    } else {
                        pre[k + 1]
                    }
                ) by {}
                assert forall|a: int, b: int|
                    0 <= a < b < post.len() implies post[a] < post[b] by {}
                assert forall|j: u64|
                    final(self).in_use(j) <==> old(self).in_use(j) && j != hv by {
                    if post.contains(j) {
                        let k = choose|k: int| 0 <= k < post.len() && post[k] == j;
                        if k < i {
                            assert(pre[k] == j);
                        } else {
                            assert(pre[k + 1] == j);
                        }
                        assert(pre.contains(j));
                    }
                    if pre.contains(j) && j != hv {
                        let k = choose|k: int| 0 <= k < pre.len() && pre[k] == j;
                        if k < i {
                            assert(post[k] == j);
                        } else {
                            assert(k != i);
                            assert(post[k - 1] == j);
                        }
                        assert(post.contains(j));
                    }
                }
            }
            true
        } else {
            proof {
                assert forall|k: int| 0 <= k < n implies self.inuse@[k] != hv by {}
                assert(!old(self).in_use(hv));
            }
            false
        }
    }

    /// Two values that are each the smallest value not in use are equal.
    pub proof fn lemma_smallest_gap_unique(self, h1: u64, h2: u64)
        requires
            !self.in_use(h1),
            forall|j: u64| j < h1 ==> self.in_use(j),
            !self.in_use(h2),
            forall|j: u64| j < h2 ==> self.in_use(j),
        ensures
            h1 == h2,
    {
        if h1 < h2 {
            assert(self.in_use(h1));
        }
        if h2 < h1 {
            assert(self.in_use(h2));
        }
    }

    /// Handle density: releasing `h` makes it the value the very next
    /// `acquire` returns, provided every value below `h` was in use before
    /// the release (that is, `h` is the smallest gap afterwards). `mid`
    /// relates to `pre` as `release(h)` leaves the set, and `h2` satisfies
    /// what `acquire` on `mid` ensures of its result.
    pub proof fn lemma_release_then_acquire(pre: Self, mid: Self, h: u64, h2: u64)
        requires
            forall|j: u64| mid.in_use(j) <==> pre.in_use(j) && j != h,
            forall|j: u64| j < h ==> pre.in_use(j),
            !mid.in_use(h2),
            forall|j: u64| j < h2 ==> mid.in_use(j),
        ensures
            h2 == h,
    {
        assert(!mid.in_use(h));
        assert forall|j: u64| j < h implies mid.in_use(j) by {
            assert(pre.in_use(j));
        }
        mid.lemma_smallest_gap_unique(h, h2);
    }
}

} // verus!
