//! The ordered composite handles: each bundles a live resource with the
//! guard that drops its database, in a field order whose destruction
//! sequence is load-bearing.

use vstd::prelude::*;
use crate::cleanup::Cleanup;

verus! {

/// A bounded pool of connections to one database. Verus refuses a
/// declaration of r2d2's pool type, whose generic parameter carries an
/// outside trait bound, so the pool is held opaquely in a private field
/// and reached through trusted wrappers.
#[verifier::external_body]
pub struct PgPool {
    inner: r2d2::Pool<diesel::r2d2::ConnectionManager<diesel::pg::PgConnection>>,
}

/// A connection drawn from a [`PgPool`], held opaquely for the same
/// reason as the pool itself.
#[verifier::external_body]
pub struct PooledPgConnection {
    inner: r2d2::PooledConnection<diesel::r2d2::ConnectionManager<diesel::pg::PgConnection>>,
}

/// The database URL that a pool's connections are established to: a
/// function of the pool value alone, fixed when the pool is built.
pub uninterp spec fn spec_pool_url(pool: PgPool) -> Seq<char>;

/// The fixed capacity a pool was built with: a function of the pool value
/// alone.
pub uninterp spec fn spec_pool_max_size(pool: PgPool) -> u32;

impl PgPool {
    /// Relies on `diesel::r2d2::ConnectionManager::new` and
    /// `r2d2::Builder::max_size` and `build`: builds a pool of at most
    /// `max_size` connections to the given database URL — the manager
    /// keeps that URL and establishes every one of the pool's connections
    /// to it — waiting until the initial connections are established; an
    /// error from establishing them is returned. `max_size` must be
    /// positive, since the builder panics on zero.
    #[verifier::external_body]
    pub fn build(database_url: &str, max_size: u32) -> (r: Result<PgPool, r2d2::Error>)
        requires
            max_size >= 1,
        ensures
            r matches Ok(pool) ==> spec_pool_url(pool) == database_url@,
            r matches Ok(pool) ==> spec_pool_max_size(pool) == max_size,
    {
        let manager = diesel::r2d2::ConnectionManager::new(database_url);
        match r2d2::Pool::builder().max_size(max_size).build(manager) {
            Ok(inner) => Ok(PgPool { inner }),
            Err(e) => Err(e),
        }
    }

    /// Relies on `r2d2::Pool::get`: draws one connection from the pool,
    /// waiting for at most the pool's configured timeout.
    #[verifier::external_body]
    pub fn get(&self) -> Result<PooledPgConnection, r2d2::Error> {
        match self.inner.get() {
            Ok(inner) => Ok(PooledPgConnection { inner }),
            Err(e) => Err(e),
        }
    }
}

impl PooledPgConnection {
    /// Relies on `r2d2::PooledConnection`'s `Deref`: a borrow of the live
    /// connection the pool handed out.
    #[verifier::external_body]
    pub fn connection(&self) -> &diesel::pg::PgConnection {
        &*self.inner
    }
}

/// A struct that enforces drop order for a pool and the cleanup routine.
///
/// The pool stands ahead of the guard, so that releasing the whole handle
/// closes the pool's connections before the guard issues `DROP DATABASE`.
pub struct EphemeralDatabasePool {
    pub(crate) pool: PgPool,  // must be released before `cleanup`
    pub(crate) cleanup: Cleanup,
}

impl EphemeralDatabasePool {
    /// The pool of connections to the ephemeral database.
    pub closed spec fn spec_pool(&self) -> PgPool {
        self.pool
    }

    /// The guard that drops the ephemeral database.
    pub closed spec fn spec_cleanup(&self) -> Cleanup {
        self.cleanup
    }

    /// Bundles a pool with the guard for the database it is connected to.
    pub(crate) fn new(pool: PgPool, cleanup: Cleanup) -> (r: EphemeralDatabasePool)
        ensures
            r.spec_pool() == pool,
            r.spec_cleanup() == cleanup,
    {
        EphemeralDatabasePool { pool, cleanup }
    }

    /// Read-through access to the pool, leaving the handle — and with it
    /// the guard's lifetime — untouched.
    pub fn pool(&self) -> (r: &PgPool)
        ensures
            *r == self.spec_pool(),
    {
        &self.pool
    }

    /// Read-through access to the guard, for instance to learn the name of
    /// the database it will drop.
    pub fn cleanup(&self) -> (r: &Cleanup)
        ensures
            *r == self.spec_cleanup(),
    {
        &self.cleanup
    }

    /// Converts the struct into a tuple.
    ///
    /// # Warning
    ///
    /// You are responsible for making sure that the pool does not outlive
    /// the `Cleanup`.
    #[must_use]
    pub fn into_tuple(self) -> (r: (PgPool, Cleanup))
        ensures
            r.0 == self.spec_pool(),
            r.1 == self.spec_cleanup(),
    {
        (self.pool, self.cleanup)
    }
}

/// A struct that enforces drop order for a single connection and the
/// cleanup routine.
///
/// The connection stands ahead of the guard, so that releasing the whole
/// handle closes the connection before the guard issues `DROP DATABASE`.
pub struct EphemeralDatabaseConnection {
    pub(crate) connection: diesel::PgConnection,  // must be released before `cleanup`
    pub(crate) cleanup: Cleanup,
}

impl EphemeralDatabaseConnection {
    /// The connection to the ephemeral database.
    pub closed spec fn spec_connection(&self) -> diesel::PgConnection {
        self.connection
    }

    /// The guard that drops the ephemeral database.
    pub closed spec fn spec_cleanup(&self) -> Cleanup {
        self.cleanup
    }

    /// Bundles a connection with the guard for the database it is
    /// connected to.
    pub(crate) fn new(
        connection: diesel::PgConnection,
        cleanup: Cleanup,
    ) -> (r: EphemeralDatabaseConnection)
        ensures
            r.spec_connection() == connection,
            r.spec_cleanup() == cleanup,
    {
        EphemeralDatabaseConnection { connection, cleanup }
    }

    /// Read-through access to the connection, leaving the handle — and
    /// with it the guard's lifetime — untouched.
    pub fn connection(&self) -> (r: &diesel::PgConnection)
        ensures
            *r == self.spec_connection(),
    {
        &self.connection
    }

    /// Read-through access to the guard, for instance to learn the name of
    /// the database it will drop.
    pub fn cleanup(&self) -> (r: &Cleanup)
        ensures
            *r == self.spec_cleanup(),
    {
        &self.cleanup
    }

    /// Converts the struct into a tuple.
    ///
    /// # Warning
    ///
    /// You are responsible for making sure that the connection does not
    /// outlive the `Cleanup`.
    #[must_use]
    pub fn into_tuple(self) -> (r: (diesel::PgConnection, Cleanup))
        ensures
            r.0 == self.spec_connection(),
            r.1 == self.spec_cleanup(),
    {
        (self.connection, self.cleanup)
    }
}

} // verus!
