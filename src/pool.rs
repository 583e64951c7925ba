use vstd::prelude::*;
use std::marker::PhantomData;
use diesel_async::{AsyncConnection, AsyncPgConnection};
use diesel_async::pooled_connection::{AsyncDieselConnectionManager, PoolError};
use diesel_async::pooled_connection::deadpool::{BuildError, Hook, HookError};
use diesel_async::pooled_connection::deadpool::Pool as DeadPool;
use futures_util::TryFutureExt;
use crate::capability::{ReadOnly, ReadWrite};
use crate::connection::{Capability, PooledConnection};

verus! {

#[verifier::external_type_specification]
#[verifier::external_body]
pub struct ExAsyncPgConnection(AsyncPgConnection);

#[verifier::external_type_specification]
#[verifier::external_body]
pub struct ExBuildError(BuildError);

/// The underlying deadpool pool of diesel-async Postgres connections. It owns
/// the physical connections, bounds how many exist at once and checks them on
/// checkout. Connections are checked out through its field.
#[verifier::external_body]
pub struct ConnectionPool {
    pub deadpool: DeadPool<AsyncPgConnection>,
}

/// The bound on physical connections that `p` was built with. It stays what
/// it was at build time even if the pool is later resized or closed.
pub uninterp spec fn pool_max_size(p: ConnectionPool) -> usize;

/// The database URL that `p` establishes its connections to.
pub uninterp spec fn pool_database_url(p: ConnectionPool) -> Seq<char>;

/// Whether `p` opens a transaction on each physical connection it creates and
/// never commits it.
pub uninterp spec fn pool_isolates_writes(p: ConnectionPool) -> bool;

/// Relies on deadpool's `Pool::clone`, a clone of the `Arc` that holds the
/// pool's state: the clone is the same pool.
impl Clone for ConnectionPool {
    #[verifier::external_body]
    fn clone(&self) -> (r: Self)
        ensures
            r == *self,
    {
        ConnectionPool { deadpool: self.deadpool.clone() }
    }
}

/// Relies on `AsyncDieselConnectionManager::new`, which establishes
/// connections to the URL given, and deadpool's `PoolBuilder`: the pool is
/// bounded by `max_size`, has no hook, and `build` fails only when
/// timeouts are set without a runtime, and none are set here.
#[verifier::external_body]
fn build_plain_pool(database_url: String, max_size: usize) -> (r: Result<ConnectionPool, BuildError>)
    ensures
        r is Ok,
        r matches Ok(p) ==> pool_max_size(p) == max_size,
        r matches Ok(p) ==> !pool_isolates_writes(p),
        r matches Ok(p) ==> pool_database_url(p) == database_url@,
{
    let manager = AsyncDieselConnectionManager::<AsyncPgConnection>::new(database_url);
    DeadPool::builder(manager).max_size(max_size).build().map(|deadpool| ConnectionPool { deadpool })
}

/// Relies on `AsyncDieselConnectionManager::new`, which establishes
/// connections to the URL given, deadpool's `PoolBuilder` and
/// its post-create hook, which runs once on each new physical connection before
/// it is handed out: here it calls diesel-async's `begin_test_transaction`, and
/// rejects the connection if that fails. `build` fails only when timeouts are
/// set without a runtime, and none are set here.
#[verifier::external_body]
fn build_isolated_pool(database_url: String, max_size: usize) -> (r: Result<ConnectionPool, BuildError>)
    ensures
        r is Ok,
        r matches Ok(p) ==> pool_max_size(p) == max_size,
        r matches Ok(p) ==> pool_isolates_writes(p),
        r matches Ok(p) ==> pool_database_url(p) == database_url@,
{
    let manager = AsyncDieselConnectionManager::<AsyncPgConnection>::new(database_url);
    let hook = Hook::async_fn(|conn: &mut AsyncPgConnection, _| {
        Box::pin(conn.begin_test_transaction().map_err(|e| HookError::Backend(PoolError::QueryError(e))))
    });
    DeadPool::builder(manager).max_size(max_size).post_create(hook).build().map(|deadpool| ConnectionPool { deadpool })
}

/// The bound on physical connections: `max_size` when given, otherwise twice
/// the number of parallel execution units available.
pub open spec fn resolved_max_size(max_size: Option<usize>, available_parallelism: usize) -> int {
    match max_size {
        Some(m) => m as int,
        None => 2 * available_parallelism,
    }
}

/// Test mode is off unless asked for.
pub open spec fn test_mode_requested(test_mode: Option<bool>) -> bool {
    test_mode == Some(true)
}

/// Computes the bound on physical connections of a new pool.
pub fn resolve_max_size(max_size: Option<usize>, available_parallelism: usize) -> (r: usize)
    requires
        max_size is None ==> 2 * available_parallelism <= usize::MAX,
    ensures
        r == resolved_max_size(max_size, available_parallelism),
{
    match max_size {
        Some(m) => m,
        None => 2 * available_parallelism,
    }
}

/// Whether a new pool runs in test mode.
pub fn test_mode_enabled(test_mode: Option<bool>) -> (r: bool)
    ensures
        r == test_mode_requested(test_mode),
{
    match test_mode {
        Some(t) => t,
        None => false,
    }
}

/// A pool whose connections carry the capability `T`: `ReadOnly` or
/// `ReadWrite`. Clones share the same underlying pool.
pub struct Pool<T> {
    pool: ConnectionPool,
    max_size: usize,
    test_mode: bool,
    rw: PhantomData<T>,
}

impl<T> Pool<T> {
    #[verifier::type_invariant]
    closed spec fn inv(self) -> bool {
        &&& self.max_size == pool_max_size(self.pool)
        &&& self.test_mode == pool_isolates_writes(self.pool)
    }

    /// The underlying pool; clones of a pool share it.
    pub closed spec fn underlying(&self) -> ConnectionPool {
        self.pool
    }

    /// The database URL the pool connects to.
    pub closed spec fn database_url_view(&self) -> Seq<char> {
        pool_database_url(self.pool)
    }

    /// The bound on physical connections the pool was built with. Resizing
    /// the underlying pool through `connections()` does not change it.
    pub closed spec fn max_size_view(&self) -> usize {
        pool_max_size(self.pool)
    }

    /// Whether the pool runs in test mode.
    pub closed spec fn test_mode_view(&self) -> bool {
        pool_isolates_writes(self.pool)
    }

    /// Builds a pool against `database_url`. Its bound is `max_size`, or
    /// twice `available_parallelism` when that is not given. In test mode
    /// every physical connection opens a transaction when it is created and
    /// never commits it.
    pub fn new(
        database_url: String,
        test_mode: Option<bool>,
        max_size: Option<usize>,
        available_parallelism: usize,
    ) -> (r: Result<Self, BuildError>)
        requires
            max_size is None ==> 2 * available_parallelism <= usize::MAX,
        ensures
            r is Ok,
            r matches Ok(p) ==> p.max_size_view() == resolved_max_size(max_size, available_parallelism),
            r matches Ok(p) ==> p.test_mode_view() == test_mode_requested(test_mode),
            r matches Ok(p) ==> p.database_url_view() == database_url@,
    {
        let max_size = resolve_max_size(max_size, available_parallelism);
        let isolated = test_mode_enabled(test_mode);
        let built = if isolated {
            build_isolated_pool(database_url, max_size)
        } else {
            build_plain_pool(database_url, max_size)
        };
        match built {
            Ok(pool) => Ok(Pool { pool, max_size, test_mode: isolated, rw: PhantomData }),
            Err(e) => Err(e),
        }
    }

    /// The capability of this pool, to tag the connections checked out of it.
    pub fn capability(&self) -> (r: Capability<T>) {
        Capability::granted()
    }

    /// Tags the outcome of a checkout from this pool with the pool's
    /// capability; an error is passed on as it is. The checkout must come from
    /// this pool's `connections()`: the tag is not checked against where it
    /// came from.
    pub fn tag_checkout<C, E>(&self, checkout: Result<C, E>) -> (r: Result<PooledConnection<T, C>, E>)
        ensures
            checkout is Ok <==> r is Ok,
            checkout matches Ok(c) ==> r matches Ok(conn) && conn.handle() == c,
            checkout matches Err(e) ==> r == Err::<PooledConnection<T, C>, E>(e),
    {
        match checkout {
            Ok(c) => Ok(self.capability().wrap(c)),
            Err(e) => Err(e),
        }
    }

    /// The underlying pool, from which connections are checked out.
    pub fn connections(&self) -> (r: &ConnectionPool)
        ensures
            pool_max_size(*r) == self.max_size_view(),
            pool_isolates_writes(*r) == self.test_mode_view(),
            *r == self.underlying(),
    {
        &self.pool
    }

    /// The bound on physical connections the pool was built with. Resizing
    /// the underlying pool through `connections()` does not change it.
    pub fn max_size(&self) -> (r: usize)
        ensures
            r == self.max_size_view(),
    {
        proof {
            use_type_invariant(self);
        }
        self.max_size
    }

    /// Whether the pool runs in test mode.
    pub fn test_mode(&self) -> (r: bool)
        ensures
            r == self.test_mode_view(),
    {
        proof {
            use_type_invariant(self);
        }
        self.test_mode
    }
}

impl<T> Clone for Pool<T> {
    fn clone(&self) -> (r: Self)
        ensures
            r.underlying() == self.underlying(),
            r.max_size_view() == self.max_size_view(),
            r.test_mode_view() == self.test_mode_view(),
            r.database_url_view() == self.database_url_view(),
    {
        proof {
            use_type_invariant(self);
        }
        Pool { pool: self.pool.clone(), max_size: self.max_size, test_mode: self.test_mode, rw: PhantomData }
    }
}

impl Pool<ReadWrite> {
    /// Builds a read-write pool; the same as `Pool::<ReadWrite>::new`.
    pub fn new_rw(
        database_url: String,
        test_mode: Option<bool>,
        max_size: Option<usize>,
        available_parallelism: usize,
    ) -> (r: Result<Self, BuildError>)
        requires
            max_size is None ==> 2 * available_parallelism <= usize::MAX,
        ensures
            r is Ok,
            r matches Ok(p) ==> p.max_size_view() == resolved_max_size(max_size, available_parallelism),
            r matches Ok(p) ==> p.test_mode_view() == test_mode_requested(test_mode),
            r matches Ok(p) ==> p.database_url_view() == database_url@,
    {
        Self::new(database_url, test_mode, max_size, available_parallelism)
    }
}

impl Pool<ReadOnly> {
    /// Builds a read-only pool; the same as `Pool::<ReadOnly>::new`.
    pub fn new_ro(
        database_url: String,
        test_mode: Option<bool>,
        max_size: Option<usize>,
        available_parallelism: usize,
    ) -> (r: Result<Self, BuildError>)
        requires
            max_size is None ==> 2 * available_parallelism <= usize::MAX,
        ensures
            r is Ok,
            r matches Ok(p) ==> p.max_size_view() == resolved_max_size(max_size, available_parallelism),
            r matches Ok(p) ==> p.test_mode_view() == test_mode_requested(test_mode),
            r matches Ok(p) ==> p.database_url_view() == database_url@,
    {
        Self::new(database_url, test_mode, max_size, available_parallelism)
    }
}

} // verus!
