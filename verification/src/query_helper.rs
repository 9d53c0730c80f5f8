//! The exact SQL text of the administrative statements. Database names are
//! double-quoted as PostgreSQL identifiers; they are expected to be
//! URL-safe, so no escaping is needed inside the quotes.

use vstd::prelude::*;
use vstd::string::StringExecFns;

verus! {

/// The text of the statement that creates a database of the given name.
pub open spec fn spec_create_database_query(database_name: Seq<char>) -> Seq<char> {
    "CREATE DATABASE \""@ + database_name + "\""@
}

/// The text of the statement that drops a database of the given name.
/// `IF EXISTS` makes dropping an already-absent database a success rather
/// than a failure.
pub open spec fn spec_drop_database_query(database_name: Seq<char>) -> Seq<char> {
    "DROP DATABASE IF EXISTS \""@ + database_name + "\""@
}

/// The statement that creates the named database.
pub fn create_database_query(database_name: &str) -> (r: String)
    ensures
        r@ == spec_create_database_query(database_name@),
{
    let mut query = String::from_str("CREATE DATABASE \"");
    query.append(database_name);
    query.append("\"");
    query
}

/// The statement that drops the named database.
pub fn drop_database_query(database_name: &str) -> (r: String)
    ensures
        r@ == spec_drop_database_query(database_name@),
{
    let mut query = String::from_str("DROP DATABASE IF EXISTS \"");
    query.append(database_name);
    query.append("\"");
    query
}

} // verus!
