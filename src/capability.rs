use vstd::prelude::*;
use diesel_async::AsyncPgConnection;

verus! {

/// Marks pools and connections as read-only.
#[derive(Clone, Copy, Debug)]
pub struct ReadOnly;

/// Marks pools and connections as read-write.
#[derive(Clone, Copy, Debug)]
pub struct ReadWrite;

/// A connection that may be used for reads. It says nothing about whether it
/// may be used for writes.
pub trait ReadableConnection: std::ops::Deref<Target = AsyncPgConnection> + std::ops::DerefMut + Send {
}

/// A connection that may be used for writes. Every such connection may be used
/// for reads as well.
pub trait WriteableConnection: std::ops::Deref<Target = AsyncPgConnection> + std::ops::DerefMut + Send {
}

/// Every writer is a reader.
impl<W: WriteableConnection> ReadableConnection for W {
}

} // verus!
