//! A fixed-range pool of local ports, each flagged free or in use.

use vstd::prelude::*;

use crate::errors::GatewayError;

verus! {

/// Number of ports in a pool: `base ..= base + 999`.
pub const PORT_RANGE: u16 = 1000;

/// Largest base for which the whole range fits in a `u16`.
pub const MAX_BASE_PORT: u16 = 64536;

/// Mathematical model of a pool: its first port and the ports in use.
pub struct PoolView {
    pub base: int,
    pub in_use: Set<int>,
}

/// The ports a pool with this base manages.
pub open spec fn port_range(base: int) -> Set<int> {
    Set::new(|p: int| base <= p < base + PORT_RANGE)
}

pub open spec fn pool_view_wf(v: PoolView) -> bool {
    &&& 0 <= v.base <= MAX_BASE_PORT
    &&& v.in_use.subset_of(port_range(v.base))
}

/// The ports of the range that are not in use.
pub open spec fn free_ports(v: PoolView) -> Set<int> {
    port_range(v.base).difference(v.in_use)
}

pub open spec fn is_lowest_free(v: PoolView, p: int) -> bool {
    &&& free_ports(v).contains(p)
    &&& forall|q: int| #[trigger] free_ports(v).contains(q) ==> p <= q
}

/// The port an allocation hands out: the lowest free one, if any.
pub open spec fn lowest_free(v: PoolView) -> Option<int> {
    if exists|p: int| is_lowest_free(v, p) {
        Some(choose|p: int| is_lowest_free(v, p))
    } else {
        None
    }
}

/// The pool after `p` is marked in use.
pub open spec fn allocated(v: PoolView, p: int) -> PoolView {
    PoolView { base: v.base, in_use: v.in_use.insert(p) }
}

/// The pool after `p` is released; a port not in use stays as it was.
pub open spec fn freed(v: PoolView, p: int) -> PoolView {
    PoolView { base: v.base, in_use: v.in_use.remove(p) }
}

/// Once every port is in use, freeing one port of the range makes exactly
/// that port free, and it is the one the next allocation hands out.
pub proof fn lemma_free_after_exhaustion(v: PoolView, p: int)
    requires
        pool_view_wf(v),
        free_ports(v) == Set::<int>::empty(),
        port_range(v.base).contains(p),
    ensures
        free_ports(freed(v, p)) == set![p],
        lowest_free(freed(v, p)) == Some(p),
{
    let w = freed(v, p);
    assert forall|q: int| free_ports(w).contains(q) <==> q == p by {
        if q != p && port_range(v.base).contains(q) {
            assert(!free_ports(v).contains(q));
        }
    }
    assert(free_ports(w) =~= set![p]);
    lemma_lowest_unique(w, p);
}

/// Freeing a port that is not in use leaves the free set, and so its size,
/// as it was.
pub proof fn lemma_free_unused_keeps_free_set(v: PoolView, p: int)
    requires
        pool_view_wf(v),
        !v.in_use.contains(p),
    ensures
        free_ports(freed(v, p)) == free_ports(v),
        free_ports(freed(v, p)).len() == free_ports(v).len(),
{
    assert(v.in_use.remove(p) =~= v.in_use);
}

/// Ports `base ..= base + 999`, each with an in-use flag.
pub struct PortPool {
    base: u16,
    used: Vec<bool>,
}

impl View for PortPool {
    type V = PoolView;

    closed spec fn view(&self) -> PoolView {
        PoolView {
            base: self.base as int,
            in_use: Set::new(
                |p: int|
                    self.base as int <= p < self.base as int + PORT_RANGE && self.used@[p
                        - self.base as int],
            ),
        }
    }
}

proof fn lemma_lowest_unique(v: PoolView, p: int)
    requires
        is_lowest_free(v, p),
    ensures
        lowest_free(v) == Some(p),
{
    let c = choose|q: int| is_lowest_free(v, q);
    assert(is_lowest_free(v, c));
    assert(c <= p && p <= c);
}

impl PortPool {
    pub closed spec fn wf(&self) -> bool {
        &&& self.used.len() == PORT_RANGE as int
        &&& self.base <= MAX_BASE_PORT
    }

    pub proof fn lemma_view_wf(&self)
        requires
            self.wf(),
        ensures
            pool_view_wf(self@),
    {
    }

    /// A pool over `base ..= base + 999` with every port free.
    pub fn new(base: u16) -> (r: PortPool)
        requires
            base <= MAX_BASE_PORT,
        ensures
            r.wf(),
            r@.base == base as int,
            r@.in_use == Set::<int>::empty(),
    {
        let mut used: Vec<bool> = Vec::new();
        let mut i: u16 = 0;
        while i < PORT_RANGE
            invariant
                i <= PORT_RANGE,
                used@.len() == i as int,
                forall|j: int| 0 <= j < i ==> !#[trigger] used@[j],
            decreases PORT_RANGE - i,
        {
            used.push(false);
            i = i + 1;
        }
        let r = PortPool { base, used };
        assert(r@.in_use =~= Set::<int>::empty());
        r
    }

    /// Hands out the lowest free port and marks it in use; fails with
    /// `PoolExhausted` when every port of the range is in use.
    pub fn allocate(&mut self) -> (r: Result<u16, GatewayError>)
        requires
            old(self).wf(),
        ensures
            final(self).wf(),
            lowest_free(old(self)@) == (match r {
                Ok(p) => Some(p as int),
                Err(_) => None::<int>,
            }),
            r matches Ok(p) ==> final(self)@ == allocated(old(self)@, p as int),
            r is Err ==> final(self)@ == old(self)@ && r == Err::<u16, GatewayError>(
                GatewayError::PoolExhausted,
            ),
            r is Err <==> free_ports(old(self)@) == Set::<int>::empty(),
    {
        let ghost v = self@;
        let mut i: u16 = 0;
        while i < PORT_RANGE
            invariant
                self.wf(),
                self@ == v,
                v == old(self)@,
                i <= PORT_RANGE,
                forall|j: int| 0 <= j < i ==> #[trigger] self.used@[j],
            decreases PORT_RANGE - i,
        {
            if !self.used[i as usize] {
                let p: u16 = self.base + i;
                self.used.set(i as usize, true);
                proof {
                    assert(free_ports(v).contains(p as int));
                    assert forall|q: int| #[trigger] free_ports(v).contains(q) implies p <= q by {
                        if q < p {
                            assert(v.in_use.contains(q));
                        }
                    }
                    lemma_lowest_unique(v, p as int);
                    assert(self@.in_use =~= v.in_use.insert(p as int));
                }
                return Ok(p);
            }
            i = i + 1;
        }
        proof {
            assert(free_ports(v) =~= Set::<int>::empty()) by {
                assert forall|q: int| free_ports(v).contains(q) implies false by {
                    assert(self.used@[q - v.base]);
                }
            }
            assert(!exists|p: int| is_lowest_free(v, p));
        }
        Err(GatewayError::PoolExhausted)
    }

    /// Marks `port` free. Freeing a port that is already free, or one outside
    /// the range, changes nothing.
    pub fn free(&mut self, port: u16)
        requires
            old(self).wf(),
        ensures
            final(self).wf(),
            final(self)@ == freed(old(self)@, port as int),
    {
        let ghost v = self@;
        if self.base <= port && port - self.base < PORT_RANGE {
            self.used.set((port - self.base) as usize, false);
        }
        assert(self@.in_use =~= v.in_use.remove(port as int));
    }
}

} // verus!
