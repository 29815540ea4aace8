//! The pool-injector middleware: it wraps exactly one connection pool and,
//! on every request it sees, makes sure a shared handle to that pool is
//! reachable from the request's extension slot. Injection is idempotent, so
//! installing the middleware more than once, or nesting chains, never stores
//! a second handle.

use vstd::prelude::*;

use crate::pool::Pool;
use crate::request::PoolHandle;
use crate::request::Request;

verus! {

/// The error the external pool builder reported when the pool could not be
/// built — for instance from a malformed connection URI or a manager that
/// could not be constructed. The adapter keeps the builder's rendered
/// message and passes it through unread.
#[derive(Debug)]
pub struct BuildError {
    /// The builder's own description of the failure.
    pub message: String,
}

/// Construction failure of the middleware: it wraps the pool builder's
/// error. No other operation of the middleware can fail.
#[derive(Debug)]
pub struct ConstructionError {
    /// The pool builder's error, wrapped unchanged.
    pub cause: BuildError,
}

/// The middleware itself. It wraps exactly one pool and is immutable after
/// construction; cloning shares the underlying pool rather than duplicating
/// connections.
#[derive(Clone, Copy, Debug, PartialEq, Eq, Structural)]
pub struct DieselMiddleware {
    /// The wrapped pool.
    pub pool: Pool,
}

impl DieselMiddleware {
    /// The handle this middleware publishes into requests: it references the
    /// wrapped pool.
    pub open spec fn shared_handle(self) -> PoolHandle {
        PoolHandle { pool_id: self.pool.pool_id }
    }

    /// A request after this middleware has run on it: if the extension slot
    /// already holds a handle, the request is unchanged; otherwise the slot
    /// now holds this middleware's handle. Everything else about the request
    /// is carried through untouched.
    pub open spec fn injected<State>(self, req: Request<State>) -> Request<State> {
        if req.ext is Some {
            req
        } else {
            Request { state: req.state, ext: Some(self.shared_handle()) }
        }
    }

    /// Construction from the outcome the external pool builder reported for
    /// the given connection URI: wrap the pool it built, or wrap its error.
    /// Returns `Ok` exactly when the pool was built; a build failure — a
    /// malformed URI among them — comes back as a construction error, never
    /// as a panic.
    pub fn new(build: Result<Pool, BuildError>) -> (r: Result<DieselMiddleware, ConstructionError>)
        ensures
            build matches Ok(p) ==> r matches Ok(m) && m.pool == p,
            build matches Err(e) ==> r matches Err(c) && c.cause == e,
    {
        match build {
            Ok(pool) => Ok(DieselMiddleware { pool }),
            Err(e) => Err(ConstructionError { cause: e }),
        }
    }

    /// The wrapped pool.
    pub fn as_ref(&self) -> (p: &Pool)
        ensures
            *p == self.pool,
    {
        &self.pool
    }

    /// The per-request operation: publish a shared handle to the wrapped
    /// pool into the request's extension slot, unless one is already there.
    /// It mutates nothing but that slot — in particular not the pool — and
    /// cannot fail; deferring to the rest of the pipeline, whose result is
    /// passed through verbatim, is the host framework's part.
    pub fn handle<State>(&self, req: &mut Request<State>)
        ensures
            *final(req) == self.injected(*old(req)),
            final(req).ext is Some,
            old(req).ext is None ==> final(req).ext == Some(self.shared_handle()),
    {
        if req.ext.is_some() {
            return;
        }
        req.ext = Some(PoolHandle { pool_id: self.pool.pool_id });
    }
}

impl From<Pool> for DieselMiddleware {
    /// Wrap an already-built pool directly; this construction has no failure
    /// mode.
    fn from(pool: Pool) -> Self {
        DieselMiddleware { pool }
    }
}

impl vstd::std_specs::convert::FromSpecImpl<Pool> for DieselMiddleware {
    open spec fn obeys_from_spec() -> bool {
        true
    }

    open spec fn from_spec(pool: Pool) -> Self {
        DieselMiddleware { pool }
    }
}

/// Idempotency of injection: however many times the middleware runs on a
/// request, the extension slot ends up in the same state, holding exactly
/// one pool handle.
pub proof fn lemma_injection_idempotent<State>(m: DieselMiddleware, req: Request<State>)
    ensures
        m.injected(m.injected(req)) == m.injected(req),
        m.injected(req).ext is Some,
{
}

/// Requests processed by the same middleware — however many are in flight at
/// once — each observe a handle referencing the same underlying pool: the
/// one the middleware wraps.
pub proof fn lemma_requests_share_pool<State>(
    m: DieselMiddleware,
    r1: Request<State>,
    r2: Request<State>,
)
    requires
        r1.ext is None,
        r2.ext is None,
    ensures
        m.injected(r1).ext == m.injected(r2).ext,
        m.injected(r1).ext == Some(m.shared_handle()),
{
}

} // verus!
