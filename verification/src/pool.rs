//! Accounting model of the bounded connection pool.
//!
//! The pool lends at most `capacity` connections at a time; a caller beyond
//! that bound is never refused with an error, it simply waits until a
//! connection comes back. The gauge here is the decision core of that
//! discipline: it says exactly when a caller is admitted and what the
//! counts look like afterwards, and its lemmas state that admission always
//! follows a release, and that a release after a failed command restores
//! the pool exactly.

use vstd::prelude::*;

verus! {

/// Default bound of the connection pool: at most this many connections are
/// open at once; further callers wait.
pub fn pool_default_capacity() -> (n: usize)
    ensures
        n == 5,
{
    5
}

/// Occupancy gauge of a bounded connection pool.
#[derive(Debug, Clone, Copy, PartialEq, Eq, Structural)]
pub struct PoolGauge {
    /// Upper bound on concurrently lent connections; at least one.
    pub capacity: usize,
    /// Connections currently lent out.
    pub in_use: usize,
}

/// The gauge after one connection is lent.
pub open spec fn spec_acquired(p: PoolGauge) -> PoolGauge {
    PoolGauge { capacity: p.capacity, in_use: (p.in_use + 1) as usize }
}

/// The gauge after one connection comes back.
pub open spec fn spec_released(p: PoolGauge) -> PoolGauge {
    PoolGauge { capacity: p.capacity, in_use: (p.in_use - 1) as usize }
}

impl PoolGauge {
    /// A gauge never lends more than its capacity.
    pub open spec fn wf(self) -> bool {
        1 <= self.capacity && self.in_use <= self.capacity
    }

    /// A fresh pool of the given bound with every connection at home.
    pub fn new(capacity: usize) -> (p: Self)
        requires
            capacity >= 1,
        ensures
            p.wf(),
            p.capacity == capacity,
            p.in_use == 0,
    {
        PoolGauge { capacity, in_use: 0 }
    }

    /// Admits a caller exactly when a connection is free. Total: a full
    /// pool means the caller waits (`false`), never an error.
    pub fn try_acquire(&mut self) -> (granted: bool)
        requires
            old(self).wf(),
        ensures
            final(self).wf(),
            granted == (old(self).in_use < old(self).capacity),
            granted ==> *final(self) == spec_acquired(*old(self)),
            !granted ==> *final(self) == *old(self),
    {
        if self.in_use < self.capacity {
            self.in_use = self.in_use + 1;
            true
        } else {
            false
        }
    }

    /// Returns a lent connection to the pool.
    pub fn release(&mut self)
        requires
            old(self).wf(),
            old(self).in_use >= 1,
        ensures
            final(self).wf(),
            *final(self) == spec_released(*old(self)),
    {
        self.in_use = self.in_use - 1;
    }
}

/// Waiters make progress: a pool may be fully lent out, but as soon as any
/// connection is released, the next caller is admitted. Together with
/// `try_acquire` being total this is the bound discipline: excess callers
/// wait, they are never refused with an error.
pub proof fn lemma_waiter_admitted_after_release(p: PoolGauge)
    requires
        p.wf(),
        p.in_use >= 1,
    ensures
        spec_released(p).wf(),
        spec_released(p).in_use < spec_released(p).capacity,
{
}

/// Resource release restores the pool: a connection acquired for a command
/// that then fails goes back, and the gauge is exactly what it was before
/// the command — in particular the connection is reusable at once.
pub proof fn lemma_release_after_failure_restores(p: PoolGauge)
    requires
        p.wf(),
        p.in_use < p.capacity,
    ensures
        spec_released(spec_acquired(p)) == p,
        spec_released(spec_acquired(p)).in_use < p.capacity,
{
}

} // verus!
