//! The port allocator: the set of ports claimed by managed instances.
//!
//! Reservation is atomic with respect to lookups: within one allocator a
//! `reserve` either claims a free port or reports it taken, and no two
//! reservations of the same port can both succeed. The allocator never
//! probes the host's socket layer; that separate check is made by the
//! registry before a process starts.

use vstd::prelude::*;

verus! {

pub struct PortAllocator {
    ports: Vec<u32>,
}

impl PortAllocator {
    /// No port is recorded twice.
    pub closed spec fn wf(&self) -> bool {
        forall|i: int, j: int|
            #![trigger self.ports@[i], self.ports@[j]]
            0 <= i < j < self.ports@.len() ==> self.ports@[i] != self.ports@[j]
    }

    /// Whether a port is currently reserved.
    pub closed spec fn spec_in_use(&self, port: u32) -> bool {
        self.ports@.contains(port)
    }

    /// How many ports are reserved.
    pub closed spec fn reserved_count(&self) -> int {
        self.ports@.len() as int
    }

    pub fn new() -> (r: Self)
        ensures
            r.wf(),
            forall|p: u32| !r.spec_in_use(p),
            r.reserved_count() == 0,
    {
        Self { ports: Vec::new() }
    }

    /// Whether a port is currently reserved by any instance.
    pub fn is_in_use(&self, port: u32) -> (r: bool)
        ensures
            r == self.spec_in_use(port),
    {
        let mut k: usize = 0;
        while k < self.ports.len()
            invariant
                k <= self.ports@.len(),
                forall|i: int| 0 <= i < k ==> self.ports@[i] != port,
            decreases self.ports@.len() - k,
        {
            if self.ports[k] == port {
                return true;
            }
            k = k + 1;
        }
        false
    }

    /// Claim a port. Returns `false`, changing nothing, when the port is
    /// already reserved; otherwise the port joins the reservation set.
    pub fn reserve(&mut self, port: u32) -> (r: bool)
        requires
            old(self).wf(),
        ensures
            final(self).wf(),
            r == !old(self).spec_in_use(port),
            forall|q: u32|
                final(self).spec_in_use(q) == (old(self).spec_in_use(q) || (r && q == port)),
            r ==> final(self).reserved_count() == old(self).reserved_count() + 1,
            !r ==> *final(self) == *old(self),
    {
        if self.is_in_use(port) {
            false
        } else {
            self.ports.push(port);
            proof {
                let pre = old(self).ports@;
                let post = self.ports@;
                assert(post == pre.push(port));
                assert(post[pre.len() as int] == port);
                assert(post.contains(port));
                assert forall|i: int, j: int|
                    #![trigger post[i], post[j]]
                    0 <= i < j < post.len() implies post[i] != post[j] by {
                    if j < pre.len() {
                        assert(post[i] == pre[i] && post[j] == pre[j]);
                    } else {
                        assert(post[j] == port);
                        assert(post[i] == pre[i]);
                        if pre[i] == port {
                            assert(pre.contains(port));
                        }
                    }
                }
                assert forall|q: u32| self.spec_in_use(q) == (old(self).spec_in_use(q) || q
                    == port) by {
                    if old(self).spec_in_use(q) {
                        let w = choose|w: int| 0 <= w < pre.len() && pre[w] == q;
                        assert(post[w] == q);
                        assert(post.contains(q));
                    }
                    if self.spec_in_use(q) && q != port {
                        let w = choose|w: int| 0 <= w < post.len() && post[w] == q;
                        assert(w < pre.len());
                        assert(pre[w] == q);
                        assert(pre.contains(q));
                    }
                }
            }
            true
        }
    }

    /// Release a port. After the call the port is free; every other
    /// reservation is untouched.
    pub fn release(&mut self, port: u32)
        requires
            old(self).wf(),
        ensures
            final(self).wf(),
            forall|q: u32|
                final(self).spec_in_use(q) == (old(self).spec_in_use(q) && q != port),
            old(self).spec_in_use(port) ==> final(self).reserved_count() == old(
                self,
            ).reserved_count() - 1,
            !old(self).spec_in_use(port) ==> *final(self) == *old(self),
    {
        let mut k: usize = 0;
        while k < self.ports.len()
            invariant
                old(self).wf(),
                k <= self.ports@.len(),
                forall|i: int| 0 <= i < k ==> self.ports@[i] != port,
                *self == *old(self),
            decreases self.ports@.len() - k,
        {
            if self.ports[k] == port {
                proof {
                    assert(old(self).ports@[k as int] == port);
                }
                self.ports.remove(k);
                proof {
                    let pre = old(self).ports@;
                    let post = self.ports@;
                    assert forall|i: int|
                        0 <= i < post.len() implies #[trigger] post[i] == (if i < k {
                        pre[i]
                    } else {
                        pre[i + 1]
                    }) by {
                        let s1 = pre.subrange(0, k as int);
                        let s2 = pre.subrange(k as int + 1, pre.len() as int);
                        assert(post == s1 + s2);
                        if i < k {
                            assert((s1 + s2)[i] == s1[i]);
                        } else {
                            assert((s1 + s2)[i] == s2[i - k]);
                        }
                    }
                    assert forall|i: int, j: int|
                        #![trigger post[i], post[j]]
                        0 <= i < j < post.len() implies post[i] != post[j] by {
                        let pi: int = if i < k { i } else { i + 1 };
                        let pj: int = if j < k { j } else { j + 1 };
                        assert(pre[pi] != pre[pj]);
                    }
                    assert forall|q: u32| post.contains(q) == (pre.contains(q) && q != port) by {
                        if post.contains(q) {
                            let w = choose|w: int| 0 <= w < post.len() && post[w] == q;
                            let pw: int = if w < k { w } else { w + 1 };
                            assert(pre[pw] == q);
                            assert(pre.contains(q));
                            if q == port {
                                assert(pre[pw] == pre[k as int]);
                                assert(pw != k);
                                assert(false);
                            }
                        }
                        if pre.contains(q) && q != port {
                            let w = choose|w: int| 0 <= w < pre.len() && pre[w] == q;
                            assert(w != k);
                            if w < k {
                                assert(post[w] == q);
                                assert(post.contains(q));
                            } else {
                                assert(post[w - 1] == q);
                                assert(post.contains(q));
                            }
                        }
                    }
                }
                return ;
            }
            k = k + 1;
        }
        proof {
            if old(self).spec_in_use(port) {
                let w = choose|w: int|
                    0 <= w < old(self).ports@.len() && old(self).ports@[w] == port;
                assert(false);
            }
        }
    }
}

} // verus!
