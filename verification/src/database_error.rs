//! The error taxonomy: everything that can go wrong while a test database
//! is set up or torn down, with the teardown-ordering violation kept apart
//! from generic query failure.

use vstd::prelude::*;

verus! {

/// A failure reported by the database server for a single query, declared
/// so that it can be carried inside [`TestDatabaseError`].
#[verifier::external_type_specification]
#[verifier::external_body]
pub struct ExQueryError(diesel::result::Error);

/// A failure to establish a connection, declared so that it can be carried
/// inside [`TestDatabaseError`].
#[verifier::external_type_specification]
#[verifier::external_body]
pub struct ExConnectionError(diesel::result::ConnectionError);

/// A failure while applying migrations, declared so that it can be carried
/// inside [`TestDatabaseError`].
#[verifier::external_type_specification]
#[verifier::external_body]
pub struct ExRunMigrationsError(diesel::migration::RunMigrationsError);

/// A failure while locating or reading migrations, declared so that it can
/// be carried inside [`TestDatabaseError`].
#[verifier::external_type_specification]
#[verifier::external_body]
pub struct ExMigrationError(diesel::migration::MigrationError);

/// A failure to build or draw from a connection pool, declared so that it
/// can be carried inside [`TestDatabaseError`].
#[verifier::external_type_specification]
#[verifier::external_body]
pub struct ExPoolError(r2d2::Error);

pub type TestDatabaseResult<T> = Result<T, TestDatabaseError>;

/// Errors that can occur while setting up or cleaning up test databases.
#[derive(Debug)]
pub enum TestDatabaseError {
    /// Applying migrations to the new database failed.
    RunMigrationsError(diesel::migration::RunMigrationsError),
    /// A database was dropped while another connection to it was still
    /// open: the teardown guard was released before the working
    /// connection or pool, an ordering bug in the caller's handle
    /// management rather than a transient fault. Detection goes by the
    /// only signal diesel exposes (see [`spec_in_use_error`]), which
    /// over-approximates the in-use class: any database error of no
    /// recognized kind is classified here.
    CleanupDroppedFirst,
    /// The migrations directory could not be found or read.
    MigrationError(diesel::migration::MigrationError),
    /// The connection pool for the new database could not be built or a
    /// connection could not be drawn from it.
    PoolCreationError(r2d2::Error),
    /// The database server reported a generic failure for a query.
    QueryError(diesel::result::Error),
    /// A single connection to the new database could not be established.
    ConnectionError(diesel::result::ConnectionError),
}

/// Whether a query-level failure is of the class that signals a
/// teardown-ordering violation: a database error of no recognized kind, a
/// function of the error value alone. The "object is in use / has active
/// sessions" condition that PostgreSQL reports for a `DROP DATABASE` with
/// live sessions is of this class, because diesel gives it no dedicated
/// kind and folds every SQLSTATE it does not recognize into its catch-all
/// kind. The class therefore over-approximates the in-use condition: for
/// instance, creating a database under a name that already exists falls
/// into it too.
pub uninterp spec fn spec_in_use_error(error: diesel::result::Error) -> bool;

/// Relies on `diesel::result::Error`: PostgreSQL's "database is being
/// accessed by other users" condition carries no dedicated
/// `DatabaseErrorKind`, so diesel surfaces it — like every other
/// unrecognized database error — under the catch-all kind. Tells that
/// kind apart from every other error. A `matches!` test cannot panic and
/// touches no invariants, so the `no_unwind` and `opens_invariants none`
/// claims hold; they let the teardown guard's verified `Drop` body
/// classify its failure.
#[verifier::external_body]
fn is_ordering_violation(error: &diesel::result::Error) -> (r: bool)
    ensures
        r == spec_in_use_error(*error),
    opens_invariants none
    no_unwind
{
    matches!(
        error,
        diesel::result::Error::DatabaseError(diesel::result::DatabaseErrorKind::__Unknown, _)
    )
}

/// The description text of a migration-running error: a function of
/// the error value alone.
pub uninterp spec fn spec_run_migrations_error_text(error: diesel::migration::RunMigrationsError) -> Seq<char>;

/// Relies on `std::error::Error::source` and `description` for diesel's
/// migration-running error: the source's description when one is given,
/// else the error's own.
#[allow(deprecated)]
#[verifier::external_body]
fn run_migrations_error_text(error: &diesel::migration::RunMigrationsError) -> (r: &str)
    ensures
        r@ == spec_run_migrations_error_text(*error),
{
    std::error::Error::source(error)
        .map(|source| std::error::Error::description(source))
        .unwrap_or_else(|| std::error::Error::description(error))
}

/// The description text of a migration-discovery error: a function of
/// the error value alone.
pub uninterp spec fn spec_migration_error_text(error: diesel::migration::MigrationError) -> Seq<char>;

/// Relies on `std::error::Error::source` and `description` for diesel's
/// migration-discovery error: the source's description when one is given,
/// else the error's own.
#[allow(deprecated)]
#[verifier::external_body]
fn migration_error_text(error: &diesel::migration::MigrationError) -> (r: &str)
    ensures
        r@ == spec_migration_error_text(*error),
{
    std::error::Error::source(error)
        .map(|source| std::error::Error::description(source))
        .unwrap_or_else(|| std::error::Error::description(error))
}

/// The description text of a pool error: a function of
/// the error value alone.
pub uninterp spec fn spec_pool_error_text(error: r2d2::Error) -> Seq<char>;

/// Relies on `std::error::Error::source` and `description` for r2d2's pool
/// error: the source's description when one is given, else the error's
/// own.
#[allow(deprecated)]
#[verifier::external_body]
fn pool_error_text(error: &r2d2::Error) -> (r: &str)
    ensures
        r@ == spec_pool_error_text(*error),
{
    std::error::Error::source(error)
        .map(|source| std::error::Error::description(source))
        .unwrap_or_else(|| std::error::Error::description(error))
}

/// The description text of a query error: a function of
/// the error value alone.
pub uninterp spec fn spec_query_error_text(error: diesel::result::Error) -> Seq<char>;

/// Relies on `std::error::Error::source` and `description` for diesel's
/// query error: the source's description when one is given, else the
/// error's own.
#[allow(deprecated)]
#[verifier::external_body]
fn query_error_text(error: &diesel::result::Error) -> (r: &str)
    ensures
        r@ == spec_query_error_text(*error),
{
    std::error::Error::source(error)
        .map(|source| std::error::Error::description(source))
        .unwrap_or_else(|| std::error::Error::description(error))
}

/// The description text of a connection error: a function of
/// the error value alone.
pub uninterp spec fn spec_connection_error_text(error: diesel::result::ConnectionError) -> Seq<char>;

/// Relies on `std::error::Error::source` and `description` for diesel's
/// connection error: the source's description when one is given, else the
/// error's own.
#[allow(deprecated)]
#[verifier::external_body]
fn connection_error_text(error: &diesel::result::ConnectionError) -> (r: &str)
    ensures
        r@ == spec_connection_error_text(*error),
{
    std::error::Error::source(error)
        .map(|source| std::error::Error::description(source))
        .unwrap_or_else(|| std::error::Error::description(error))
}

impl TestDatabaseError {
    /// Classifies a query-level failure: the "database still in use"
    /// class becomes [`TestDatabaseError::CleanupDroppedFirst`], which is
    /// diagnostic of a teardown-ordering bug; every other error stays a
    /// generic [`TestDatabaseError::QueryError`].
    pub fn from_query_error(error: diesel::result::Error) -> (r: TestDatabaseError)
        ensures
            r is CleanupDroppedFirst || r is QueryError,
            r is CleanupDroppedFirst <==> spec_in_use_error(error),
            r matches TestDatabaseError::QueryError(inner) ==> inner == error,
        opens_invariants none
        no_unwind
    {
        if is_ordering_violation(&error) {
            TestDatabaseError::CleanupDroppedFirst
        } else {
            TestDatabaseError::QueryError(error)
        }
    }

    /// A human-readable description of the error. The variants that wrap
    /// an outside error defer to that error's own description (or to its
    /// source's, when one is given), so the underlying libraries'
    /// diagnostic detail is kept; the teardown-ordering violation has a
    /// fixed message naming the bug.
    pub fn description(&self) -> (r: &str)
        ensures
            self matches TestDatabaseError::RunMigrationsError(e) ==> r@
                == spec_run_migrations_error_text(*e),
            self is CleanupDroppedFirst ==> r@
                == "The Cleanup struct dropped while another connection was still open. Consider using std::mem::drop to drop the pool or connection before the Cleanup struct exits scope."@,
            self matches TestDatabaseError::MigrationError(e) ==> r@
                == spec_migration_error_text(*e),
            self matches TestDatabaseError::PoolCreationError(e) ==> r@
                == spec_pool_error_text(*e),
            self matches TestDatabaseError::QueryError(e) ==> r@ == spec_query_error_text(*e),
            self matches TestDatabaseError::ConnectionError(e) ==> r@
                == spec_connection_error_text(*e),
    {
        match self {
            TestDatabaseError::RunMigrationsError(error) => run_migrations_error_text(error),
            TestDatabaseError::CleanupDroppedFirst => {
                "The Cleanup struct dropped while another connection was still open. Consider using std::mem::drop to drop the pool or connection before the Cleanup struct exits scope."
            },
            TestDatabaseError::MigrationError(error) => migration_error_text(error),
            TestDatabaseError::PoolCreationError(error) => pool_error_text(error),
            TestDatabaseError::QueryError(error) => query_error_text(error),
            TestDatabaseError::ConnectionError(error) => connection_error_text(error),
        }
    }
}

} // verus!
