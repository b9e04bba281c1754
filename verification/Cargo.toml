[package]
name = "schema_store"
version = "0.1.0"
edition = "2021"
publish = false

[dependencies]
diesel = { version = "1.4", default-features = false, features = ["sqlite"] }
diesel_migrations = { version = "1.4", default-features = false, features = ["sqlite"] }
log = "0.4"
