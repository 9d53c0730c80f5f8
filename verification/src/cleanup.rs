//! The teardown guard: ties the admin connection and the created database's
//! name together, so that leaving scope drops the database.

use vstd::prelude::*;
use crate::database_error::TestDatabaseError;
use crate::primitives::execute_sql;
use crate::query_helper::{drop_database_query, spec_drop_database_query};

verus! {

/// Drops a test database when it exits scope.
///
/// Contains the admin connection, the name of the database, and the drop
/// statement for that name, prepared at construction so that the verified
/// `Drop` body provably issues the drop of exactly the owned name. When
/// this struct goes out of scope, it uses the data it owns to drop the
/// database it is associated with.
///
/// # Warning
///
/// ### When dealing with a tuple of type `(PgPool, Cleanup)` or `(PgConnection, Cleanup)`
///
/// * Proper database cleanup requires that `Cleanup` is dropped _after_ the
///   connection or pool.
/// * If `Cleanup` drops first, the server reports that the database is
///   still in use, and the database is not dropped, polluting the server's
///   namespace with test databases.
pub struct Cleanup {
    pub(crate) admin_conn: diesel::PgConnection,
    pub(crate) database_name: String,
    pub(crate) drop_statement: String,
}

impl Cleanup {
    /// The name of the database that this guard drops when released.
    pub closed spec fn spec_database_name(&self) -> Seq<char> {
        self.database_name@
    }

    /// The admin connection that this guard owns and drops the database
    /// through.
    pub closed spec fn spec_admin_conn(&self) -> diesel::PgConnection {
        self.admin_conn
    }

    /// The statement that this guard issues when released.
    pub closed spec fn spec_drop_statement(&self) -> Seq<char> {
        self.drop_statement@
    }

    /// Binds an admin connection to the name of the database to be
    /// dropped, preparing the drop statement for exactly that name.
    pub(crate) fn new(admin_conn: diesel::PgConnection, database_name: String) -> (r: Cleanup)
        ensures
            r.spec_admin_conn() == admin_conn,
            r.spec_database_name() == database_name@,
            r.spec_drop_statement() == spec_drop_database_query(database_name@),
    {
        let drop_statement = drop_database_query(database_name.as_str());
        Cleanup { admin_conn, database_name, drop_statement }
    }

    /// The name of the database that this guard drops when released.
    pub fn database_name(&self) -> (r: &String)
        ensures
            r@ == self.spec_database_name(),
    {
        &self.database_name
    }
}

/// Makes a teardown failure fatal. A value of this type exists only
/// inside [`abort_teardown`], armed just before the deliberate panic
/// there, so its own release only ever runs while that panic is already
/// unwinding — and a second panic during an unwind aborts the process.
/// `std::process` is not available here; this is the stable way to abort
/// without it.
struct FatalTeardown;

impl Drop for FatalTeardown {
    /// Runs only during the unwind of a failed teardown and panics there,
    /// which aborts the process; so this never unwinds out and never
    /// returns to an unwinding caller.
    #[verifier::external_body]
    fn drop(&mut self)
        opens_invariants none
        no_unwind
    {
        let failed: Option<()> = None;
        failed.expect("A test database could not be dropped; aborting to surface the leak.");
    }
}

/// Aborts the process, loudly, with the teardown failure that caused it.
/// Relies on std's panic machinery: `Result::expect` on the error prints
/// it and panics, the unwind releases the armed [`FatalTeardown`], and its
/// second panic turns the unwind into an abort before it can leave this
/// function — so this never unwinds and never returns normally either.
#[verifier::external_body]
fn abort_teardown(error: TestDatabaseError)
    opens_invariants none
    no_unwind
{
    let fatal = FatalTeardown;
    Err::<(), TestDatabaseError>(error).expect("Couldn't drop database at end of test.");
    std::mem::forget(fatal);
}

impl Drop for Cleanup {
    /// Issues the prepared `DROP DATABASE IF EXISTS` statement — tied by
    /// construction to the owned name — over the owned admin connection.
    /// Teardown runs during automatic resource release, where no result
    /// channel is available, so a failure here — a leaked database on the
    /// shared server — is fatal rather than swallowed: it is classified,
    /// so that a teardown-ordering violation is named explicitly, and the
    /// process aborts.
    fn drop(&mut self)
        opens_invariants none
        no_unwind
    {
        match execute_sql(&self.admin_conn, &self.drop_statement) {
            Ok(_) => (),
            Err(error) => abort_teardown(TestDatabaseError::from_query_error(error)),
        }
    }
}

} // verus!
