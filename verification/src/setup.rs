//! The provisioning builder: collects configuration, then creates the
//! database, runs migrations, and binds the teardown guard to the result.

use vstd::prelude::*;
use vstd::string::StringExecFns;
use crate::cleanup::Cleanup;
use crate::connection_wrapper::{
    spec_pool_max_size, spec_pool_url, EphemeralDatabaseConnection, EphemeralDatabasePool, PgPool,
};
use crate::database_error::{TestDatabaseError, TestDatabaseResult};
use crate::names::{generate, name_matches_option, DatabaseNameOption};
use crate::primitives::{create_database, run_migrations};

verus! {

/// Fixed capacity of the working connection pool.
pub const POOL_MAX_SIZE: u32 = 3;

/// Relies on `migrations_internals::find_migrations_directory`: walks
/// upward from the current working directory looking for a directory named
/// "migrations"; reports the directory-not-found error when the walk
/// reaches the filesystem root without finding one.
#[verifier::external_body]
fn locate_migrations_directory() -> Result<std::path::PathBuf, diesel::migration::MigrationError> {
    migrations_internals::find_migrations_directory()
}

/// The database URL that a working connection was established to: a
/// function of the connection value alone, fixed when it is established.
pub uninterp spec fn spec_connection_url(connection: diesel::PgConnection) -> Seq<char>;

/// Relies on `diesel::Connection::establish` for `PgConnection`: connects
/// to the database that the URL names, or reports why it could not.
#[verifier::external_body]
fn establish_connection(
    database_url: &str,
) -> (r: Result<diesel::pg::PgConnection, diesel::result::ConnectionError>)
    ensures
        r matches Ok(connection) ==> spec_connection_url(connection) == database_url@,
{
    diesel::Connection::establish(database_url)
}

/// The URL of a database on the given server: the origin, a single
/// separator, and the database name.
pub fn database_url(database_origin: &str, database_name: &str) -> (r: String)
    ensures
        r@ == database_origin@ + "/"@ + database_name@,
{
    let mut url = String::from_str(database_origin);
    url.append("/");
    url.append(database_name);
    url
}

/// Builder for ephemeral test databases.
pub struct TestDatabaseBuilder<'a> {
    /// Connection that is used to create and destroy the database.
    admin_conn: diesel::PgConnection,
    /// The scheme and authority of the database server. The resolved name
    /// is appended to this to form the URL of the new database.
    database_origin: &'a str,
    /// The migrations to run.
    migrations_directory: Option<std::path::PathBuf>,
    /// The name of the database to be created.
    db_name: DatabaseNameOption,
}

impl<'a> TestDatabaseBuilder<'a> {
    /// The admin connection the builder was given.
    pub closed spec fn spec_admin_conn(&self) -> diesel::PgConnection {
        self.admin_conn
    }

    /// The configured origin of the database server.
    pub closed spec fn spec_origin(&self) -> Seq<char> {
        self.database_origin@
    }

    /// The configured migrations directory, if any.
    pub closed spec fn spec_migrations_directory(&self) -> Option<std::path::PathBuf> {
        self.migrations_directory
    }

    /// The configured naming strategy.
    pub closed spec fn spec_db_name(&self) -> DatabaseNameOption {
        self.db_name
    }

    /// Creates a new builder.
    ///
    /// # Arguments
    ///
    /// * `admin_conn` - Admin connection used for creating and dropping
    ///   databases.
    /// * `database_origin` - The scheme and authority of the server on
    ///   which the database will be created. The resolved name is appended
    ///   to this to form the URL that connects to the new database.
    ///
    /// # Notes
    ///
    /// * The `admin_conn` should have been created with the same origin
    ///   present in `database_origin`.
    /// * The `database_origin` should NOT have a trailing '/'.
    pub fn new(admin_conn: diesel::PgConnection, database_origin: &'a str) -> (r: Self)
        ensures
            r.spec_admin_conn() == admin_conn,
            r.spec_origin() == database_origin@,
            r.spec_migrations_directory() is None,
            r.spec_db_name() is Random,
    {
        TestDatabaseBuilder {
            admin_conn,
            database_origin,
            migrations_directory: None,
            db_name: DatabaseNameOption::Random,
        }
    }

    /// Specifies the migrations directory that will be used to run
    /// migrations on the new database.
    ///
    /// If this isn't specified, then the directory will be searched for,
    /// although it cannot be guaranteed to be found if it isn't in or
    /// above your current directory.
    ///
    /// # Arguments
    ///
    /// * `directory` - The directory where the migrations are found.
    ///
    /// # Notes
    ///
    /// * If migrations can't be found, then attempting to run
    ///   `setup_pool` or `setup_connection` will return an error.
    pub fn migrations_directory(self, directory: std::path::PathBuf) -> (r: Self)
        ensures
            r.spec_migrations_directory() == Some(directory),
            r.spec_admin_conn() == self.spec_admin_conn(),
            r.spec_origin() == self.spec_origin(),
            r.spec_db_name() == self.spec_db_name(),
    {
        TestDatabaseBuilder { migrations_directory: Some(directory), ..self }
    }

    /// Sets the database name.
    /// If none is provided, then a random database name will be generated.
    ///
    /// # Arguments
    ///
    /// * `db_name` - The name of the database to be created.
    ///
    /// # Notes
    ///
    /// * If you provide your own database name, then it is expected to be
    ///   URL-safe (no spaces, no URL-unsafe characters).
    /// * This will overwrite any configuration made using
    ///   `db_name_prefix`.
    pub fn db_name(self, db_name: String) -> (r: Self)
        ensures
            r.spec_db_name() == DatabaseNameOption::Custom(db_name),
            r.spec_admin_conn() == self.spec_admin_conn(),
            r.spec_origin() == self.spec_origin(),
            r.spec_migrations_directory() == self.spec_migrations_directory(),
    {
        TestDatabaseBuilder { db_name: DatabaseNameOption::Custom(db_name), ..self }
    }

    /// Sets the database name prefix.
    /// This prefix will have a random name appended to it.
    ///
    /// # Arguments
    ///
    /// * `prefix` - The prefix to the random database name.
    ///
    /// # Notes
    ///
    /// * The prefix is expected to be URL-safe (no spaces, no URL-unsafe
    ///   characters).
    /// * This will overwrite any configuration made using `db_name`.
    pub fn db_name_prefix(self, prefix: String) -> (r: Self)
        ensures
            r.spec_db_name() == DatabaseNameOption::RandomWithPrefix(prefix),
            r.spec_admin_conn() == self.spec_admin_conn(),
            r.spec_origin() == self.spec_origin(),
            r.spec_migrations_directory() == self.spec_migrations_directory(),
    {
        TestDatabaseBuilder { db_name: DatabaseNameOption::RandomWithPrefix(prefix), ..self }
    }

    /// Creates a new database, runs migrations on it, and returns a pool
    /// connected to it, bundled with the guard that will drop the
    /// database.
    ///
    /// # Notes
    ///
    /// * If you don't specify the migrations directory, it is searched
    ///   for, starting at the current directory; failure to locate it
    ///   aborts before any database is touched.
    /// * If database creation succeeds but a later step fails, the created
    ///   database is not dropped by this path: a known residual risk.
    pub fn setup_pool(self) -> (r: TestDatabaseResult<EphemeralDatabasePool>)
        ensures
            r matches Ok(handle) ==> {
                &&& name_matches_option(
                    self.spec_db_name(),
                    handle.spec_cleanup().spec_database_name(),
                )
                &&& handle.spec_cleanup().spec_admin_conn() == self.spec_admin_conn()
                &&& spec_pool_url(handle.spec_pool()) == self.spec_origin() + "/"@
                    + handle.spec_cleanup().spec_database_name()
                &&& spec_pool_max_size(handle.spec_pool()) == POOL_MAX_SIZE
            },
            r matches Err(e) ==> {
                ||| e is MigrationError
                ||| e is CleanupDroppedFirst
                ||| e is QueryError
                ||| e is PoolCreationError
                ||| e is RunMigrationsError
            },
            r matches Err(e) && e is MigrationError ==> self.spec_migrations_directory() is None,
    {
        let TestDatabaseBuilder { admin_conn, database_origin, migrations_directory, db_name } =
            self;
        let migrations_directory: std::path::PathBuf = match migrations_directory {
            Some(directory) => directory,
            None => match locate_migrations_directory() {
                Ok(directory) => directory,
                Err(e) => {
                    return Err(TestDatabaseError::MigrationError(e));
                },
            },
        };
        let resolved_name = generate(db_name);
        setup_named_db_pool(admin_conn, database_origin, &migrations_directory, resolved_name)
    }

    /// Creates a new database, runs migrations on it, and returns a single
    /// connection to it, bundled with the guard that will drop the
    /// database.
    ///
    /// # Notes
    ///
    /// * If you don't specify the migrations directory, it is searched
    ///   for, starting at the current directory; failure to locate it
    ///   aborts before any database is touched.
    /// * If database creation succeeds but a later step fails, the created
    ///   database is not dropped by this path: a known residual risk.
    pub fn setup_connection(self) -> (r: TestDatabaseResult<EphemeralDatabaseConnection>)
        ensures
            r matches Ok(handle) ==> {
                &&& name_matches_option(
                    self.spec_db_name(),
                    handle.spec_cleanup().spec_database_name(),
                )
                &&& handle.spec_cleanup().spec_admin_conn() == self.spec_admin_conn()
                &&& spec_connection_url(handle.spec_connection()) == self.spec_origin() + "/"@
                    + handle.spec_cleanup().spec_database_name()
            },
            r matches Err(e) ==> {
                ||| e is MigrationError
                ||| e is CleanupDroppedFirst
                ||| e is QueryError
                ||| e is ConnectionError
                ||| e is RunMigrationsError
            },
            r matches Err(e) && e is MigrationError ==> self.spec_migrations_directory() is None,
    {
        let TestDatabaseBuilder { admin_conn, database_origin, migrations_directory, db_name } =
            self;
        let migrations_directory: std::path::PathBuf = match migrations_directory {
            Some(directory) => directory,
            None => match locate_migrations_directory() {
                Ok(directory) => directory,
                Err(e) => {
                    return Err(TestDatabaseError::MigrationError(e));
                },
            },
        };
        let resolved_name = generate(db_name);
        setup_named_db(admin_conn, database_origin, &migrations_directory, resolved_name)
    }
}

/// Utility function that creates a database with a known name and runs
/// migrations on it. Returns a pool of connections to it, bundled with the
/// guard that drops it.
pub fn setup_named_db_pool(
    admin_conn: diesel::PgConnection,
    database_origin: &str,
    migrations_directory: &std::path::PathBuf,
    db_name: String,
) -> (r: TestDatabaseResult<EphemeralDatabasePool>)
    ensures
        r matches Ok(handle) ==> {
            &&& handle.spec_cleanup().spec_database_name() == db_name@
            &&& handle.spec_cleanup().spec_admin_conn() == admin_conn
            &&& spec_pool_url(handle.spec_pool()) == database_origin@ + "/"@ + db_name@
            &&& spec_pool_max_size(handle.spec_pool()) == POOL_MAX_SIZE
        },
        r matches Err(e) ==> {
            ||| e is CleanupDroppedFirst
            ||| e is QueryError
            ||| e is PoolCreationError
            ||| e is RunMigrationsError
        },
{
    // The provided database name is assumed not to exist on the server
    // already; if it does, the server's error propagates from the create.
    if let Err(e) = create_database(&admin_conn, db_name.as_str()) {
        return Err(e);
    }
    let url = database_url(database_origin, db_name.as_str());
    let pool = match PgPool::build(url.as_str(), POOL_MAX_SIZE) {
        Ok(pool) => pool,
        Err(e) => {
            return Err(TestDatabaseError::PoolCreationError(e));
        },
    };
    let pooled_conn = match pool.get() {
        Ok(pooled_conn) => pooled_conn,
        Err(e) => {
            return Err(TestDatabaseError::PoolCreationError(e));
        },
    };
    if let Err(e) = run_migrations(pooled_conn.connection(), migrations_directory) {
        return Err(e);
    }
    let cleanup = Cleanup::new(admin_conn, db_name);
    Ok(EphemeralDatabasePool::new(pool, cleanup))
}

/// Utility function that creates a database with a known name and runs
/// migrations on it. Returns a single connection to it, bundled with the
/// guard that drops it.
fn setup_named_db(
    admin_conn: diesel::PgConnection,
    database_origin: &str,
    migrations_directory: &std::path::PathBuf,
    db_name: String,
) -> (r: TestDatabaseResult<EphemeralDatabaseConnection>)
    ensures
        r matches Ok(handle) ==> {
            &&& handle.spec_cleanup().spec_database_name() == db_name@
            &&& handle.spec_cleanup().spec_admin_conn() == admin_conn
            &&& spec_connection_url(handle.spec_connection()) == database_origin@ + "/"@
                + db_name@
        },
        r matches Err(e) ==> {
            ||| e is CleanupDroppedFirst
            ||| e is QueryError
            ||| e is ConnectionError
            ||| e is RunMigrationsError
        },
{
    if let Err(e) = create_database(&admin_conn, db_name.as_str()) {
        return Err(e);
    }
    let url = database_url(database_origin, db_name.as_str());
    let connection = match establish_connection(url.as_str()) {
        Ok(connection) => connection,
        Err(e) => {
            return Err(TestDatabaseError::ConnectionError(e));
        },
    };
    if let Err(e) = run_migrations(&connection, migrations_directory) {
        return Err(e);
    }
    let cleanup = Cleanup::new(admin_conn, db_name);
    Ok(EphemeralDatabaseConnection::new(connection, cleanup))
}

} // verus!
