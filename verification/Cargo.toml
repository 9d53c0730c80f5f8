[package]
name = "diesel_test_setup"
version = "0.1.0"
edition = "2021"
publish = false

[dependencies]
diesel = { version = "1.4", features = ["postgres", "r2d2"] }
migrations_internals = "1.4"
r2d2 = "0.8"
nanoid = "0.2"
