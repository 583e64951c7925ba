use vstd::prelude::*;
use std::marker::PhantomData;
use diesel_async::pooled_connection::deadpool::BuildError;
use crate::capability::{ReadOnly, ReadWrite};
use crate::pool::{Pool, resolved_max_size, test_mode_requested};

verus! {

/// Collects the options of a pool of capability `T`. `U` is `()` until the
/// database URL is given and `String` after, and only then can the pool be
/// built.
pub struct PoolBuilder<T, U> {
    pub database_url: U,
    pub test_mode: Option<bool>,
    pub max_size: Option<usize>,
    pub capability: PhantomData<T>,
}

impl<T> Pool<T> {
    /// Starts a builder with no option set.
    pub fn builder() -> (r: PoolBuilder<T, ()>)
        ensures
            r.test_mode is None,
            r.max_size is None,
    {
        PoolBuilder { database_url: (), test_mode: None, max_size: None, capability: PhantomData }
    }
}

impl Pool<ReadWrite> {
    /// Starts a builder of a read-write pool.
    pub fn rw_builder() -> (r: PoolBuilder<ReadWrite, ()>)
        ensures
            r.test_mode is None,
            r.max_size is None,
    {
        Self::builder()
    }
}

impl Pool<ReadOnly> {
    /// Starts a builder of a read-only pool.
    pub fn ro_builder() -> (r: PoolBuilder<ReadOnly, ()>)
        ensures
            r.test_mode is None,
            r.max_size is None,
    {
        Self::builder()
    }
}

impl<T, U> PoolBuilder<T, U> {
    /// Sets the database to connect to.
    pub fn database_url(self, database_url: String) -> (r: PoolBuilder<T, String>)
        ensures
            r.database_url == database_url,
            r.test_mode == self.test_mode,
            r.max_size == self.max_size,
    {
        PoolBuilder { database_url, test_mode: self.test_mode, max_size: self.max_size, capability: PhantomData }
    }

    /// Turns test mode on or off.
    pub fn test_mode(self, test_mode: bool) -> (r: Self)
        ensures
            r.database_url == self.database_url,
            r.test_mode == Some(test_mode),
            r.max_size == self.max_size,
    {
        PoolBuilder { test_mode: Some(test_mode), ..self }
    }

    /// Sets test mode, or leaves it to its default when `None`.
    pub fn and_test_mode(self, test_mode: Option<bool>) -> (r: Self)
        ensures
            r.database_url == self.database_url,
            r.test_mode == test_mode,
            r.max_size == self.max_size,
    {
        PoolBuilder { test_mode, ..self }
    }

    /// Sets the bound on physical connections.
    pub fn max_size(self, max_size: usize) -> (r: Self)
        ensures
            r.database_url == self.database_url,
            r.test_mode == self.test_mode,
            r.max_size == Some(max_size),
    {
        PoolBuilder { max_size: Some(max_size), ..self }
    }

    /// Sets the bound on physical connections, or leaves it to its default
    /// when `None`.
    pub fn and_max_size(self, max_size: Option<usize>) -> (r: Self)
        ensures
            r.database_url == self.database_url,
            r.test_mode == self.test_mode,
            r.max_size == max_size,
    {
        PoolBuilder { max_size, ..self }
    }
}

impl<T> PoolBuilder<T, String> {
    /// Builds the pool from the options collected, as `Pool::new` does.
    pub fn build(self, available_parallelism: usize) -> (r: Result<Pool<T>, BuildError>)
        requires
            self.max_size is None ==> 2 * available_parallelism <= usize::MAX,
        ensures
            r is Ok,
            r matches Ok(p) ==> p.max_size_view() == resolved_max_size(self.max_size, available_parallelism),
            r matches Ok(p) ==> p.test_mode_view() == test_mode_requested(self.test_mode),
            r matches Ok(p) ==> p.database_url_view() == self.database_url@,
    {
        Pool::new(self.database_url, self.test_mode, self.max_size, available_parallelism)
    }
}

} // verus!
