//! A middleware adapter that attaches a relational-database connection pool
//! to an HTTP request pipeline, so that each request can borrow a pooled
//! connection without the application wiring the pool through by hand.
//!
//! The pool itself, the connection lifecycle, and the HTTP dispatch belong to
//! external libraries. This crate verifies the adapter's own logic: the
//! idempotent injection of a shared pool handle into each request's extension
//! slot, the accessors that hand a connection or the pool to downstream
//! handlers, and the ledger of what the adapter observes of the pool (its
//! identity, configured maximum, and outstanding connection count).

pub mod middleware;
pub mod pool;
pub mod request;

pub use middleware::BuildError;
pub use middleware::ConstructionError;
pub use middleware::DieselMiddleware;
pub use pool::Pool;
pub use pool::PoolError;
pub use pool::PooledConnection;
pub use request::DieselRequestExt;
pub use request::PoolHandle;
pub use request::Request;
