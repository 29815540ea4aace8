//! The adapter's ledger of one connection pool.
//!
//! The pool implementation itself (acquisition, eviction, health checking)
//! lives in an external library; what the adapter can observe of it is the
//! pool's identity, its configured maximum number of connections, and how
//! many connections are checked out at a moment. This module keeps that
//! ledger as plain values, with the invariant that the outstanding count
//! never exceeds the configured maximum.

use vstd::prelude::*;

verus! {

/// Why a connection could not be checked out: every reusable connection of
/// the pool is already handed out.
#[derive(Clone, Copy, Debug, PartialEq, Eq, Structural)]
pub enum PoolError {
    Exhausted,
}

/// A connection checked out of a pool; it records which pool it came from
/// and returns to that pool when released.
#[derive(Clone, Copy, Debug, PartialEq, Eq, Structural)]
pub struct PooledConnection {
    /// Identity of the pool this connection was checked out of.
    pub pool_id: u64,
}

/// One connection pool, as the adapter sees it: an identity (two handles
/// reference the same pool exactly when their identities agree), the maximum
/// number of connections it was configured with, and the number currently
/// checked out.
#[derive(Clone, Copy, Debug, PartialEq, Eq, Structural)]
pub struct Pool {
    /// Identity of the underlying pool.
    pub pool_id: u64,
    /// The configured maximum number of simultaneous connections.
    pub max_size: usize,
    /// How many connections are checked out right now.
    pub checked_out: usize,
}

impl Pool {
    /// The pool's invariant: it holds at least one connection slot, and the
    /// outstanding count never exceeds the configured maximum.
    pub open spec fn wf(self) -> bool {
        &&& 1 <= self.max_size
        &&& self.checked_out <= self.max_size
    }

    /// Whether a checkout would succeed right now: a slot is free.
    pub open spec fn can_acquire(self) -> bool {
        self.checked_out < self.max_size
    }

    /// The ledger after a successful checkout: one more connection out.
    pub open spec fn acquired(self) -> Pool {
        Pool { checked_out: (self.checked_out + 1) as usize, ..self }
    }

    /// The ledger after a connection is returned: one fewer connection out.
    pub open spec fn released(self) -> Pool {
        Pool { checked_out: (self.checked_out - 1) as usize, ..self }
    }

    /// A fresh pool: the given identity and configured maximum, with no
    /// connection checked out yet.
    pub fn new(pool_id: u64, max_size: usize) -> (p: Pool)
        requires
            1 <= max_size,
        ensures
            p.pool_id == pool_id,
            p.max_size == max_size,
            p.checked_out == 0,
            p.wf(),
    {
        Pool { pool_id, max_size, checked_out: 0 }
    }

    /// The maximum connection count the pool was configured with.
    pub fn max_size(&self) -> (n: usize)
        ensures
            n == self.max_size,
    {
        self.max_size
    }

    /// Check a connection out. Succeeds exactly when a slot is free; the
    /// connection carries this pool's identity. When the pool is exhausted,
    /// the error is returned and the ledger is unchanged.
    pub fn acquire(&mut self) -> (r: Result<PooledConnection, PoolError>)
        requires
            old(self).wf(),
        ensures
            final(self).wf(),
            final(self).pool_id == old(self).pool_id,
            final(self).max_size == old(self).max_size,
            old(self).can_acquire() ==> {
                &&& r matches Ok(c) && c.pool_id == old(self).pool_id
                &&& *final(self) == old(self).acquired()
            },
            !old(self).can_acquire() ==> {
                &&& r matches Err(e) && e == PoolError::Exhausted
                &&& *final(self) == *old(self)
            },
    {
        if self.checked_out < self.max_size {
            self.checked_out = self.checked_out + 1;
            Ok(PooledConnection { pool_id: self.pool_id })
        } else {
            Err(PoolError::Exhausted)
        }
    }

    /// Return a checked-out connection to the pool it came from.
    pub fn release(&mut self, conn: PooledConnection)
        requires
            old(self).wf(),
            conn.pool_id == old(self).pool_id,
            1 <= old(self).checked_out,
        ensures
            *final(self) == old(self).released(),
            final(self).wf(),
            final(self).can_acquire(),
    {
        self.checked_out = self.checked_out - 1;
    }
}

/// After a checked-out connection is released, a subsequent acquisition
/// succeeds, and the outstanding count never exceeds the configured maximum:
/// releasing frees a slot, and re-acquiring it restores the prior count.
pub proof fn lemma_release_then_acquire(p: Pool)
    requires
        p.wf(),
        1 <= p.checked_out,
    ensures
        p.released().can_acquire(),
        p.released().acquired().checked_out == p.checked_out,
        p.released().acquired().checked_out <= p.max_size,
{
}

} // verus!
