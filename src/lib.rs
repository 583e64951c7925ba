//! Connection pools for asynchronous Postgres connections whose capability,
//! read-only or read-write, is part of their type.
//!
//! A `Pool<ReadOnly>` hands out connections that satisfy only
//! `ReadableConnection`; a `Pool<ReadWrite>` hands out connections that satisfy
//! `WriteableConnection`, and therefore `ReadableConnection` too. A pool built
//! in test mode opens a transaction on every physical connection it creates and
//! never commits it, so that nothing written through the pool outlives it.

mod builder;
mod capability;
mod connection;
mod pool;

pub use builder::PoolBuilder;
pub use capability::{ReadOnly, ReadWrite, ReadableConnection, WriteableConnection};
pub use connection::{Capability, PooledConnection};
pub use pool::{
    ConnectionPool, Pool, pool_database_url, pool_isolates_writes, pool_max_size, resolve_max_size,
    resolved_max_size, test_mode_enabled, test_mode_requested,
};

/// Re-export of diesel for the library's users.
pub use diesel;

/// Re-export of diesel-async for the library's users.
pub use diesel_async;
