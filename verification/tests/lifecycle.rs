//! Lifecycle tests against a local PostgreSQL server: provisioning,
//! teardown ordering, and idempotence. Each test connects as an
//! administrator first and returns early if no server is reachable, so
//! the suite degrades gracefully where PostgreSQL is not running.

use diesel::dsl::sql;
use diesel::sql_types::{BigInt, Bool};
use diesel::{Connection, PgConnection, RunQueryDsl};
use diesel_test_setup::primitives::drop_database;
use diesel_test_setup::{setup_named_db_pool, PgPool, TestDatabaseBuilder, TestDatabaseError};
use std::path::{Path, PathBuf};

/// The base PostgreSQL accounts tried in turn, each with the authority to
/// create and destroy other database instances on the server: first over
/// TCP loopback, then over the local Unix socket (its directory stands
/// percent-encoded in the host position).
const ADMIN_URLS: [&str; 2] = [
    "postgres://postgres@127.0.0.1:5432/postgres",
    "postgres://postgres@%2Fvar%2Frun%2Fpostgresql/postgres",
];
/// The scheme and authority of the test database server, one per admin
/// URL. Resolved database names are appended to these to form each new
/// database's URL.
const ORIGINS: [&str; 2] = [
    "postgres://postgres@127.0.0.1:5432",
    "postgres://postgres@%2Fvar%2Frun%2Fpostgresql",
];
const MIGRATIONS: &str = "/srv/pg_test_assets/migrations";

/// The admin connection and the matching origin and admin URL, or nothing
/// where no PostgreSQL server is reachable.
fn admin_conn() -> Option<(PgConnection, &'static str, &'static str)> {
    for i in 0..ADMIN_URLS.len() {
        if let Ok(conn) = PgConnection::establish(ADMIN_URLS[i]) {
            return Some((conn, ORIGINS[i], ADMIN_URLS[i]));
        }
    }
    println!("SKIPPED: no PostgreSQL server is reachable; this test exercised nothing");
    None
}

fn database_exists(conn: &PgConnection, database_name: &str) -> bool {
    diesel::select(sql::<Bool>(&format!(
        "EXISTS (SELECT 1 FROM pg_database WHERE datname = '{}' AND NOT datistemplate)",
        database_name
    )))
    .get_result::<bool>(conn)
    .expect("Should determine if database exists")
}

fn count_tables(conn: &PgConnection) -> i64 {
    diesel::select(sql::<BigInt>(
        "(SELECT COUNT(*) FROM information_schema.tables WHERE table_schema = 'public')",
    ))
    .get_result::<i64>(conn)
    .expect("Should count tables")
}

#[test]
fn cleanup_drops_database() {
    let db_name = "cleanup_drops_database_TEST_DB".to_string();
    let (admin, origin, admin_url) = match admin_conn() {
        Some(found) => found,
        None => return,
    };
    // precautionary drop
    drop_database(&admin, &db_name).expect("should drop");

    let pool_and_cleanup =
        setup_named_db_pool(admin, origin, &PathBuf::from(MIGRATIONS), db_name.clone()).unwrap();

    let admin = PgConnection::establish(admin_url).expect("Should be able to connect to admin db");

    assert!(database_exists(&admin, &db_name));

    std::mem::drop(pool_and_cleanup);

    assert!(!database_exists(&admin, &db_name));
}

#[test]
fn lack_of_assignment_still_allows_correct_drop_order() {
    let db_name = "lack_of_assignment_still_allows_correct_drop_order_TEST".to_string();
    let (admin, origin, _admin_url) = match admin_conn() {
        Some(found) => found,
        None => return,
    };
    // precautionary drop
    drop_database(&admin, &db_name).expect("should drop");

    setup_named_db_pool(admin, origin, &PathBuf::from(MIGRATIONS), db_name.clone()).unwrap();
}

#[test]
fn normal_assignment_allows_correct_drop_order() {
    let db_name = "normal_assignment_allows_correct_drop_order_TEST".to_string();
    let (admin, origin, _admin_url) = match admin_conn() {
        Some(found) => found,
        None => return,
    };
    // precautionary drop
    drop_database(&admin, &db_name).expect("should drop");

    let _pool_and_cleanup =
        setup_named_db_pool(admin, origin, &PathBuf::from(MIGRATIONS), db_name.clone()).unwrap();
}

#[test]
fn late_assignment_allows_correct_drop_order() {
    let db_name = "late_assignment_allows_correct_drop_order_TEST".to_string();
    let (admin, origin, _admin_url) = match admin_conn() {
        Some(found) => found,
        None => return,
    };
    // precautionary drop
    drop_database(&admin, &db_name).expect("should drop");

    let x = setup_named_db_pool(admin, origin, &PathBuf::from(MIGRATIONS), db_name.clone())
        .unwrap();
    let parts = x.into_tuple();
    let _pool = parts.0;
}

#[test]
fn deref_out_of_function_maintains_correct_drop_order() {
    let db_name = "deref_should_break_TEST".to_string();
    let (admin, origin, _admin_url) = match admin_conn() {
        Some(found) => found,
        None => return,
    };
    // precautionary drop
    drop_database(&admin, &db_name).expect("should drop");

    let _: &PgPool =
        setup_named_db_pool(admin, origin, &PathBuf::from(MIGRATIONS), db_name.clone())
            .unwrap()
            .pool();
}

#[test]
fn out_of_band_drop_while_pool_alive_is_an_ordering_violation() {
    let db_name = "out_of_band_drop_TEST".to_string();
    let (admin, origin, admin_url) = match admin_conn() {
        Some(found) => found,
        None => return,
    };
    drop_database(&admin, &db_name).expect("should drop");

    let handle =
        setup_named_db_pool(admin, origin, &PathBuf::from(MIGRATIONS), db_name.clone()).unwrap();

    // The pool is still alive, so a concurrent drop of the same database
    // must fail with the dedicated ordering-violation kind, not a generic
    // query error.
    let admin = PgConnection::establish(admin_url).expect("Should be able to connect to admin db");
    let result = drop_database(&admin, &db_name);
    assert!(matches!(result, Err(TestDatabaseError::CleanupDroppedFirst)));

    std::mem::drop(handle);
    assert!(!database_exists(&admin, &db_name));
}

#[test]
fn dropping_an_absent_database_twice_succeeds() {
    let (admin, _origin, _admin_url) = match admin_conn() {
        Some(found) => found,
        None => return,
    };
    assert!(drop_database(&admin, "nonexistent_x").is_ok());
    assert!(drop_database(&admin, "nonexistent_x").is_ok());
}

#[test]
fn running_migrations_twice_produces_the_same_schema() {
    let (admin, origin, _admin_url) = match admin_conn() {
        Some(found) => found,
        None => return,
    };
    // precautionary drop
    drop_database(&admin, "migration_idempotence_TEST").expect("should drop");

    let handle = TestDatabaseBuilder::new(admin, origin)
        .migrations_directory(PathBuf::from(MIGRATIONS))
        .db_name("migration_idempotence_TEST".to_string())
        .setup_connection()
        .unwrap();

    let tables_after_first_run = count_tables(handle.connection());
    assert!(tables_after_first_run >= 2, "both migrations should have created their table");

    diesel_test_setup::primitives::run_migrations(
        handle.connection(),
        &PathBuf::from(MIGRATIONS),
    )
    .expect("re-running migrations should succeed");

    assert_eq!(tables_after_first_run, count_tables(handle.connection()));
}

#[test]
fn prefixed_setup_creates_matching_name_and_cleans_up() {
    let (admin, origin, admin_url) = match admin_conn() {
        Some(found) => found,
        None => return,
    };

    let handle = TestDatabaseBuilder::new(admin, origin)
        .migrations_directory(Path::new(MIGRATIONS).to_path_buf())
        .db_name_prefix("suite_".to_string())
        .setup_pool()
        .unwrap();

    let resolved = handle.cleanup().database_name().clone();
    assert!(resolved.starts_with("suite_"));
    let suffix: Vec<char> = resolved.chars().skip("suite_".chars().count()).collect();
    assert_eq!(suffix.len(), 40);
    for c in suffix {
        assert!(
            c == '_' || c == '-' || c.is_ascii_alphanumeric(),
            "character {:?} is outside the URL-safe alphabet",
            c
        );
    }

    let admin = PgConnection::establish(admin_url).expect("Should be able to connect to admin db");
    assert!(database_exists(&admin, &resolved));

    std::mem::drop(handle);

    assert!(!database_exists(&admin, &resolved));
}

#[test]
fn custom_name_is_provisioned_exactly() {
    let db_name = "custom_name_exact_TEST".to_string();
    let (admin, origin, admin_url) = match admin_conn() {
        Some(found) => found,
        None => return,
    };
    drop_database(&admin, &db_name).expect("should drop");

    let handle = TestDatabaseBuilder::new(admin, origin)
        .migrations_directory(PathBuf::from(MIGRATIONS))
        .db_name(db_name.clone())
        .setup_pool()
        .unwrap();

    assert_eq!(handle.cleanup().database_name(), &db_name);

    let admin = PgConnection::establish(admin_url).expect("Should be able to connect to admin db");
    assert!(database_exists(&admin, &db_name));

    std::mem::drop(handle);

    assert!(!database_exists(&admin, &db_name));
}
