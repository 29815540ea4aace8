//! The per-request side of the adapter: the extension slot into which the
//! middleware publishes a shared pool handle, and the capability downstream
//! handlers use to borrow a connection or the pool itself.
//!
//! The host framework keeps per-request extension storage as a dynamic,
//! type-keyed map; this model keeps it as an explicit optional slot, which
//! makes "at most one handle per request" hold by construction.

use vstd::prelude::*;

use crate::pool::Pool;
use crate::pool::PoolError;
use crate::pool::PooledConnection;

verus! {

/// A shared, reference-counted handle to a pool, as stored in a request's
/// extension slot. Two handles reference the same underlying pool exactly
/// when their pool identities agree; copying a handle never duplicates
/// connections.
#[derive(Clone, Copy, Debug, PartialEq, Eq, Structural)]
pub struct PoolHandle {
    /// Identity of the pool this handle references.
    pub pool_id: u64,
}

/// An incoming request as the adapter sees it: the host application's
/// per-request state, and the request's extension storage reduced to the one
/// slot this adapter reads and writes.
pub struct Request<State> {
    /// The host application's state, carried through untouched.
    pub state: State,
    /// The extension slot: the pool handle the middleware published, if the
    /// middleware has run on this request.
    pub ext: Option<PoolHandle>,
}

/// The capability the middleware adds to requests. Downstream handlers call
/// these accessors after the middleware has run; calling them on a request
/// the middleware never saw is a wiring bug, treated as an unrecoverable
/// error rather than a runtime condition, so the borrowing accessors require
/// an installed handle.
pub trait DieselRequestExt {
    /// The pool handle stored in the request's extension slot, if any.
    spec fn stored_handle(&self) -> Option<PoolHandle>;

    /// Look up the stored pool handle. `None` means the middleware was never
    /// installed on this request: the accessors below take the unrecoverable
    /// wiring-error path in exactly that case, so their contracts exclude it.
    fn pool_handle(&self) -> (h: Option<PoolHandle>)
        ensures
            h == self.stored_handle(),
    ;

    /// Check a connection out of the installed pool. Succeeds exactly when
    /// the pool has a free slot; on exhaustion the pool's own error is
    /// returned to the handler and the pool is left unchanged.
    fn pg_conn(&self, pool: &mut Pool) -> (r: Result<PooledConnection, PoolError>)
        requires
            old(pool).wf(),
            self.stored_handle() matches Some(h) && h.pool_id == old(pool).pool_id,
        ensures
            final(pool).wf(),
            final(pool).pool_id == old(pool).pool_id,
            final(pool).max_size == old(pool).max_size,
            old(pool).can_acquire() ==> {
                &&& r matches Ok(c) && c.pool_id == old(pool).pool_id
                &&& *final(pool) == old(pool).acquired()
            },
            !old(pool).can_acquire() ==> {
                &&& r matches Err(e) && e == PoolError::Exhausted
                &&& *final(pool) == *old(pool)
            },
    ;

    /// Take the pool itself for exclusive use: the returned borrow grants
    /// access to the pool value for as long as the caller retains it, and
    /// the pool ends up in whatever state the caller leaves it.
    fn pg_pool_conn<'a>(&self, pool: &'a mut Pool) -> (r: &'a mut Pool)
        requires
            self.stored_handle() matches Some(h) && h.pool_id == old(pool).pool_id,
        ensures
            *r == *old(pool),
            *final(pool) == *final(r),
    ;
}

impl<State> DieselRequestExt for Request<State> {
    open spec fn stored_handle(&self) -> Option<PoolHandle> {
        self.ext
    }

    fn pool_handle(&self) -> (h: Option<PoolHandle>) {
        self.ext
    }

    fn pg_conn(&self, pool: &mut Pool) -> (r: Result<PooledConnection, PoolError>) {
        pool.acquire()
    }

    fn pg_pool_conn<'a>(&self, pool: &'a mut Pool) -> (r: &'a mut Pool) {
        pool
    }
}

} // verus!
