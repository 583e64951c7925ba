use vstd::prelude::*;
use std::marker::PhantomData;
use diesel_async::AsyncPgConnection;
use crate::capability::{ReadOnly, ReadWrite, ReadableConnection, WriteableConnection};

verus! {

/// The right to tag connections with capability `T`.
///
/// Its field is private: outside this crate a `Capability<T>` is obtained
/// only from a pool or a connection that already carries `T`, so a tag can be
/// passed on but never forged.
pub struct Capability<T> {
    rw: PhantomData<T>,
}

impl<T> Clone for Capability<T> {
    fn clone(&self) -> (r: Self) {
        Capability { rw: PhantomData }
    }
}

impl<T> Copy for Capability<T> {
}

impl<T> Capability<T> {
    /// Mints a capability; only the pool constructors of this crate do so.
    pub(crate) fn granted() -> (r: Self) {
        Capability { rw: PhantomData }
    }

    /// Tags `conn` with this capability. `conn` is either a checkout owned by
    /// the caller or a connection borrowed inside a transaction. It must come
    /// from the pool, or from the connection, that this capability was taken
    /// from: the tag is not checked against where `conn` came from.
    pub fn wrap<C>(self, conn: C) -> (r: PooledConnection<T, C>)
        ensures
            r.handle() == conn,
    {
        PooledConnection { conn, rw: PhantomData }
    }
}

/// A connection from a pool of capability `T`, held through `C`: an owned
/// checkout, returned to the pool when this value is dropped, or a mutable
/// borrow of a connection inside a transaction.
pub struct PooledConnection<T, C> {
    conn: C,
    rw: PhantomData<T>,
}

impl<T, C> PooledConnection<T, C> {
    /// The underlying handle.
    pub closed spec fn handle(&self) -> C {
        self.conn
    }

    /// The capability this connection carries, to tag a connection derived
    /// from it (such as the one a transaction borrows) with the same one.
    pub fn capability(&self) -> (r: Capability<T>) {
        Capability { rw: PhantomData }
    }

    /// Gives up the tag and returns the handle.
    pub fn into_inner(self) -> (r: C)
        ensures
            r == self.handle(),
    {
        self.conn
    }
}

impl<T, C: std::ops::Deref> std::ops::Deref for PooledConnection<T, C> {
    type Target = C::Target;

    fn deref(&self) -> (r: &C::Target)
        ensures
            call_ensures(C::deref, (&self.handle(),), r),
    {
        self.conn.deref()
    }
}

impl<T, C: std::ops::DerefMut> std::ops::DerefMut for PooledConnection<T, C> {
    fn deref_mut(&mut self) -> (r: &mut C::Target)
        ensures
            exists|h: &mut C|
                *h == old(self).handle() && *final(h) == final(self).handle() && call_ensures(
                    C::deref_mut,
                    (h,),
                    r,
                ),
    {
        self.conn.deref_mut()
    }
}

impl<T, C: std::ops::DerefMut> std::convert::AsMut<C::Target> for PooledConnection<T, C> {
    fn as_mut(&mut self) -> (r: &mut C::Target)
        ensures
            exists|h: &mut C|
                *h == old(self).handle() && *final(h) == final(self).handle() && call_ensures(
                    C::deref_mut,
                    (h,),
                    r,
                ),
    {
        self.conn.deref_mut()
    }
}

/// Connections of read-only pools, owned or borrowed in a transaction, are
/// readable.
impl<C> ReadableConnection for PooledConnection<ReadOnly, C> where
    C: std::ops::DerefMut<Target = AsyncPgConnection> + Send,
 {
}

/// Connections of read-write pools, owned or borrowed in a transaction, are
/// writeable, and so readable too.
impl<C> WriteableConnection for PooledConnection<ReadWrite, C> where
    C: std::ops::DerefMut<Target = AsyncPgConnection> + Send,
 {
}

} // verus!
