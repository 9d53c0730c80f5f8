//! Ephemeral test databases: provisioning of uniquely named databases that
//! are dropped again when the test that owns them finishes.
//!
//! A [`TestDatabaseBuilder`] creates a database with a collision-resistant
//! name, runs the pending migrations on it, and hands back a composite
//! handle that bundles the live connection (or pool) with a [`Cleanup`]
//! guard. The handle's fields are declared so that the connection is
//! released before the guard issues `DROP DATABASE`.

use vstd::prelude::*;

mod cleanup;
mod connection_wrapper;
mod database_error;
mod names;
pub mod primitives;
pub mod query_helper;
mod setup;

pub use cleanup::Cleanup;
pub use connection_wrapper::{
    spec_pool_max_size, spec_pool_url, EphemeralDatabaseConnection, EphemeralDatabasePool, PgPool,
    PooledPgConnection,
};
pub use database_error::{
    spec_connection_error_text, spec_in_use_error, spec_migration_error_text,
    spec_pool_error_text, spec_query_error_text, spec_run_migrations_error_text,
    TestDatabaseError, TestDatabaseResult,
};
pub use names::{generate, DatabaseNameOption};
pub use setup::{database_url, setup_named_db_pool, spec_connection_url, TestDatabaseBuilder};

verus! {

/// A live PostgreSQL connection, declared so that connection values can
/// flow through verified code. Verified code never looks inside one; every
/// operation on it goes through a trusted wrapper.
#[verifier::external_type_specification]
#[verifier::external_body]
pub struct ExPgConnection(diesel::pg::PgConnection);

/// An owned filesystem path, declared so that a migrations directory can be
/// carried through verified code as an opaque value.
#[verifier::external_type_specification]
#[verifier::external_body]
pub struct ExPathBuf(std::path::PathBuf);

/// Marker for connection types that reach their server over a URL rather
/// than a file, so that whole sibling databases can be created and dropped
/// next to the one connected to. File-based engines have no such notion and
/// are excluded by never implementing this trait.
pub trait RemoteConnection {}

impl RemoteConnection for diesel::pg::PgConnection {}

} // verus!
