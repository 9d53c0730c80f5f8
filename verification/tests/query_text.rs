//! Tests of the exact SQL text and URL that the crate builds.

use diesel_test_setup::query_helper::{create_database_query, drop_database_query};

#[test]
fn create_database_query_text() {
    let query = create_database_query("abc");
    assert_eq!(query, "CREATE DATABASE \"abc\"");
}

#[test]
fn drop_database_query_includes_if_exists() {
    let query = drop_database_query("nonexistent_x");
    assert_eq!(query, "DROP DATABASE IF EXISTS \"nonexistent_x\"");
    assert!(query.contains("IF EXISTS"));
}

#[test]
fn database_url_joins_origin_and_name_with_one_separator() {
    let url = diesel_test_setup::database_url("proto://host:5432", "suite_db");
    assert_eq!(url, "proto://host:5432/suite_db");
}
