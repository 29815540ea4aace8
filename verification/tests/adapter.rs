use tide_diesel::BuildError;
use tide_diesel::DieselMiddleware;
use tide_diesel::DieselRequestExt;
use tide_diesel::Pool;
use tide_diesel::PoolError;
use tide_diesel::PoolHandle;
use tide_diesel::Request;

#[test]
fn injection_is_idempotent() {
    let mw = DieselMiddleware::from(Pool::new(41, 10));
    let mut req: Request<()> = Request { state: (), ext: None };
    mw.handle(&mut req);
    assert_eq!(req.ext, Some(PoolHandle { pool_id: 41 }));
    mw.handle(&mut req);
    mw.handle(&mut req);
    assert_eq!(req.ext, Some(PoolHandle { pool_id: 41 }));
}

#[test]
fn nested_chains_keep_the_first_handle() {
    let outer = DieselMiddleware::from(Pool::new(1, 4));
    let inner = DieselMiddleware::from(Pool::new(2, 4));
    let mut req: Request<u32> = Request { state: 7, ext: None };
    outer.handle(&mut req);
    inner.handle(&mut req);
    assert_eq!(req.ext, Some(PoolHandle { pool_id: 1 }));
    assert_eq!(req.state, 7);
}

#[test]
fn lookup_before_installation_is_none() {
    let req: Request<()> = Request { state: (), ext: None };
    assert_eq!(req.pool_handle(), None);
}

#[test]
fn lookup_after_installation_finds_the_handle() {
    let mw = DieselMiddleware::from(Pool::new(5, 2));
    let mut req: Request<()> = Request { state: (), ext: None };
    mw.handle(&mut req);
    assert_eq!(req.pool_handle(), Some(PoolHandle { pool_id: 5 }));
}

#[test]
fn construction_failure_wraps_the_builder_error() {
    let build: Result<Pool, BuildError> = Err(BuildError {
        message: String::from("invalid connection url"),
    });
    let made = DieselMiddleware::new(build);
    match made {
        Ok(_) => panic!("construction must fail when the builder failed"),
        Err(e) => assert_eq!(e.cause.message, "invalid connection url"),
    }
}

#[test]
fn construction_success_reports_the_configured_maximum() {
    let build: Result<Pool, BuildError> = Ok(Pool::new(9, 10));
    let mw = DieselMiddleware::new(build).expect("pool was built");
    assert_eq!(mw.as_ref().max_size(), 10);
    assert_eq!(mw.as_ref().pool_id, 9);
}

#[test]
fn concurrent_requests_observe_the_same_pool() {
    let mw = DieselMiddleware::from(Pool::new(77, 8));
    let mut reqs: Vec<Request<usize>> = Vec::new();
    for i in 0..4usize {
        reqs.push(Request { state: i, ext: None });
    }
    for req in reqs.iter_mut() {
        mw.clone().handle(req);
    }
    for req in reqs.iter() {
        assert_eq!(req.ext, Some(PoolHandle { pool_id: 77 }));
    }
}

#[test]
fn acquire_succeeds_while_a_slot_is_free() {
    let mut pool = Pool::new(3, 2);
    let c1 = pool.acquire().expect("first checkout");
    let c2 = pool.acquire().expect("second checkout");
    assert_eq!(c1.pool_id, 3);
    assert_eq!(c2.pool_id, 3);
    assert_eq!(pool.checked_out, 2);
}

#[test]
fn acquire_on_an_exhausted_pool_reports_the_error() {
    let mut pool = Pool::new(3, 1);
    let _held = pool.acquire().expect("first checkout");
    assert_eq!(pool.acquire(), Err(PoolError::Exhausted));
    assert_eq!(pool.checked_out, 1);
}

#[test]
fn release_then_acquire_stays_within_the_maximum() {
    let mut pool = Pool::new(6, 2);
    let c1 = pool.acquire().expect("first checkout");
    let _c2 = pool.acquire().expect("second checkout");
    assert_eq!(pool.acquire(), Err(PoolError::Exhausted));
    pool.release(c1);
    let c3 = pool.acquire().expect("checkout after a release");
    assert_eq!(c3.pool_id, 6);
    assert_eq!(pool.checked_out, 2);
    assert!(pool.checked_out <= pool.max_size);
}

#[test]
fn pg_conn_checks_a_connection_out_of_the_installed_pool() {
    let mut pool = Pool::new(12, 2);
    let mw = DieselMiddleware::from(pool);
    let mut req: Request<()> = Request { state: (), ext: None };
    mw.handle(&mut req);
    let conn = req.pg_conn(&mut pool).expect("a slot is free");
    assert_eq!(conn.pool_id, 12);
    assert_eq!(pool.checked_out, 1);
}

#[test]
fn pg_conn_passes_the_pool_error_through() {
    let mut pool = Pool::new(12, 1);
    let mw = DieselMiddleware::from(pool);
    let mut req: Request<()> = Request { state: (), ext: None };
    mw.handle(&mut req);
    let _held = req.pg_conn(&mut pool).expect("a slot is free");
    assert_eq!(req.pg_conn(&mut pool), Err(PoolError::Exhausted));
}

#[test]
fn pg_pool_conn_grants_exclusive_access_to_the_pool() {
    let mut pool = Pool::new(21, 5);
    let mw = DieselMiddleware::from(pool);
    let mut req: Request<()> = Request { state: (), ext: None };
    mw.handle(&mut req);
    let guarded = req.pg_pool_conn(&mut pool);
    assert_eq!(guarded.pool_id, 21);
    assert_eq!(guarded.max_size(), 5);
    let c = guarded.acquire().expect("a slot is free");
    assert_eq!(c.pool_id, 21);
    assert_eq!(pool.checked_out, 1);
}

#[test]
fn wrapping_an_already_built_pool_cannot_fail() {
    let pool = Pool::new(2, 3);
    let mw = DieselMiddleware::from(pool);
    assert_eq!(*mw.as_ref(), pool);
}

#[test]
fn cloning_the_middleware_shares_the_pool() {
    let mw = DieselMiddleware::from(Pool::new(30, 4));
    let other = mw.clone();
    assert_eq!(other.as_ref().pool_id, mw.as_ref().pool_id);
}
