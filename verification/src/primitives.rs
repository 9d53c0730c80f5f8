//! Primitive operations on which the higher abstractions in the crate are
//! built: creating a database, dropping one, and running migrations.

use vstd::prelude::*;
use crate::database_error::{spec_in_use_error, TestDatabaseError, TestDatabaseResult};
use crate::query_helper;

verus! {

/// Relies on `diesel::sql_query` and `RunQueryDsl::execute`: the given SQL
/// text is sent to the server verbatim as one statement, and the server's
/// affected-row count or error is returned. The `no_unwind` claim — every
/// failure comes back as the `Err` value, none as a panic — is trusted, so
/// that the teardown guard's verified `Drop` body can call this; it opens
/// no invariants.
#[verifier::external_body]
pub(crate) fn execute_sql(
    admin_conn: &diesel::PgConnection,
    sql: &String,
) -> Result<usize, diesel::result::Error>
    opens_invariants none
    no_unwind
{
    diesel::query_dsl::RunQueryDsl::execute(diesel::sql_query(sql.as_str()), admin_conn)
}

/// Drops the named database if it exists. Success covers the case that no
/// such database was there; a failure of the in-use class — the server
/// refusing the drop because sessions are still attached — is reported as
/// the dedicated teardown-ordering violation, and every other failure as
/// a generic query error.
///
/// # Arguments
///
/// * `admin_conn` - Admin connection to the database server.
/// * `database_name` - The name of the database to be deleted.
pub fn drop_database(
    admin_conn: &diesel::PgConnection,
    database_name: &str,
) -> (r: TestDatabaseResult<()>)
    ensures
        r matches Err(e) ==> e is CleanupDroppedFirst || e is QueryError,
        r matches Err(TestDatabaseError::QueryError(inner)) ==> !spec_in_use_error(inner),
{
    let query = query_helper::drop_database_query(database_name);
    match execute_sql(admin_conn, &query) {
        Ok(_) => Ok(()),
        Err(e) => Err(TestDatabaseError::from_query_error(e)),
    }
}

/// Creates a database with the given name. The name is assumed not to
/// exist on the server already; if it does, the server's error propagates
/// out of the create call — classified like a drop failure, so it too
/// lands in the in-use class of no recognized kind.
///
/// # Arguments
///
/// * `admin_conn` - Admin connection to the database server.
/// * `database_name` - The name of the new database to be created.
pub fn create_database(
    admin_conn: &diesel::PgConnection,
    database_name: &str,
) -> (r: TestDatabaseResult<()>)
    ensures
        r matches Err(e) ==> e is CleanupDroppedFirst || e is QueryError,
        r matches Err(TestDatabaseError::QueryError(inner)) ==> !spec_in_use_error(inner),
{
    let query = query_helper::create_database_query(database_name);
    match execute_sql(admin_conn, &query) {
        Ok(_) => Ok(()),
        Err(e) => Err(TestDatabaseError::from_query_error(e)),
    }
}

/// Relies on `migrations_internals::run_pending_migrations_in_directory`:
/// applies each migration found in the directory that is not yet recorded
/// as applied on the connected database, in the order implied by the
/// migration names; re-run against an already-migrated schema it applies
/// nothing. Progress output is discarded.
#[verifier::external_body]
fn run_pending_migrations(
    normal_conn: &diesel::PgConnection,
    migrations_directory: &std::path::PathBuf,
) -> Result<(), diesel::migration::RunMigrationsError> {
    migrations_internals::run_pending_migrations_in_directory(
        normal_conn,
        migrations_directory.as_path(),
        &mut std::io::sink(),
    )
}

/// Applies the pending migrations from the given directory to the database
/// that `normal_conn` is connected to.
///
/// # Note
///
/// The connection used here should be different from the admin connection
/// used for creating and dropping the database: it should be to the
/// database on which tests will be performed.
pub fn run_migrations(
    normal_conn: &diesel::PgConnection,
    migrations_directory: &std::path::PathBuf,
) -> (r: TestDatabaseResult<()>)
    ensures
        r matches Err(e) ==> e is RunMigrationsError,
{
    match run_pending_migrations(normal_conn, migrations_directory) {
        Ok(_) => Ok(()),
        Err(e) => Err(TestDatabaseError::RunMigrationsError(e)),
    }
}

} // verus!
