//! Tests of the error taxonomy: the teardown-ordering violation is kept
//! apart from every other database error.

use diesel::result::{DatabaseErrorKind, Error};
use diesel_test_setup::TestDatabaseError;

fn in_use_error() -> Error {
    // PostgreSQL reports "database is being accessed by other users" under
    // no dedicated kind, so diesel surfaces it as the catch-all kind.
    Error::DatabaseError(
        DatabaseErrorKind::__Unknown,
        Box::new("database \"x\" is being accessed by other users".to_string()),
    )
}

#[test]
fn in_use_error_becomes_cleanup_dropped_first() {
    let classified = TestDatabaseError::from_query_error(in_use_error());
    assert!(matches!(classified, TestDatabaseError::CleanupDroppedFirst));
}

#[test]
fn other_query_errors_stay_query_errors() {
    let classified = TestDatabaseError::from_query_error(Error::NotFound);
    assert!(matches!(classified, TestDatabaseError::QueryError(Error::NotFound)));
}

#[test]
fn known_kinds_are_not_mistaken_for_ordering_violations() {
    let unique = Error::DatabaseError(
        DatabaseErrorKind::UniqueViolation,
        Box::new("duplicate key".to_string()),
    );
    let classified = TestDatabaseError::from_query_error(unique);
    assert!(matches!(classified, TestDatabaseError::QueryError(_)));
}

#[test]
fn cleanup_dropped_first_description_names_the_ordering_bug() {
    let description = TestDatabaseError::CleanupDroppedFirst.description();
    assert_eq!(
        description,
        "The Cleanup struct dropped while another connection was still open. Consider using std::mem::drop to drop the pool or connection before the Cleanup struct exits scope."
    );
}

#[test]
fn wrapped_errors_expose_the_inner_description() {
    let migration = TestDatabaseError::MigrationError(
        diesel::migration::MigrationError::MigrationDirectoryNotFound,
    );
    assert_eq!(
        migration.description(),
        "Unable to find migrations directory in this directory or any parent directories."
    );
    let query = TestDatabaseError::from_query_error(Error::NotFound);
    assert_eq!(query.description(), "Record not found");
    let database = TestDatabaseError::QueryError(Error::DatabaseError(
        DatabaseErrorKind::UniqueViolation,
        Box::new("duplicate key value violates unique constraint".to_string()),
    ));
    assert_eq!(database.description(), "duplicate key value violates unique constraint");
}
