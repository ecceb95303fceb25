//! The datastore handle that a worker's application state holds.
//!
//! The connection pool itself belongs to the datastore driver. The handle
//! carries it and never looks inside, so it is generic in the pool's type.

use vstd::prelude::*;
use vstd::string::StringExecFns;

verus! {

/// What can go wrong with the datastore handle.
#[derive(Debug)]
pub enum Error {
    /// There is no pool to take a connection from.
    NoPool,
    /// The datastore reported an error, with its text.
    Database(String),
}

impl Error {
    /// The text of the error.
    pub open spec fn message_text(self) -> Seq<char> {
        match self {
            Error::NoPool => "No pool"@,
            Error::Database(text) => text@,
        }
    }

    /// The text of the error.
    pub fn message(&self) -> (r: String)
        ensures
            r@ == self.message_text(),
    {
        match self {
            Error::NoPool => String::from_str("No pool"),
            Error::Database(text) => text.clone(),
        }
    }
}

/// How long a pool waits, in seconds.
#[derive(Clone, Copy, Debug, PartialEq, Eq, Structural)]
pub struct PoolSettings {
    /// How long a task waits for a connection before it gives up.
    pub acquire_timeout_secs: u64,
    /// How long a connection may stay unused before it is closed, if it
    /// is closed at all.
    pub idle_timeout_secs: Option<u64>,
}

/// The settings with which a worker opens its pool: five seconds to
/// acquire a connection, a minute of idleness.
pub fn pool_settings() -> (r: PoolSettings)
    ensures
        r == (PoolSettings { acquire_timeout_secs: 5, idle_timeout_secs: Some(60u64) }),
{
    PoolSettings { acquire_timeout_secs: 5, idle_timeout_secs: Some(60) }
}

/// A handle on the datastore: a pool of connections of type `P`.
#[derive(Debug)]
pub struct DB<P> {
    pool: P,
}

impl<P: Clone> Clone for DB<P> {
    /// A handle on a clone of the pool.
    fn clone(&self) -> (r: Self)
        ensures
            call_ensures(P::clone, (&self@,), r@),
    {
        DB { pool: self.pool.clone() }
    }
}

impl<P> View for DB<P> {
    type V = P;

    closed spec fn view(&self) -> P {
        self.pool
    }
}

impl<P> DB<P> {
    /// A handle on this pool.
    pub fn new(pool: P) -> (r: Self)
        ensures
            r@ == pool,
    {
        DB { pool }
    }

    /// The handle with another pool.
    pub fn pool(self, pool: P) -> (r: Self)
        ensures
            r@ == pool,
    {
        DB { pool }
    }

    /// Replaces the pool, and hands the handle back for further changes.
    pub fn set_pool(&mut self, pool: P) -> (r: &mut Self)
        ensures
            r@ == pool,
            *final(self) == *final(r),
    {
        self.pool = pool;
        self
    }

    /// The pool.
    pub fn get_pool(&self) -> (r: &P)
        ensures
            *r == self@,
    {
        &self.pool
    }
}

} // verus!
