//! A persistent store with an embedded, versioned schema-migration engine
//! and one shared connection that is handed out for exclusive use.

pub mod db;
pub mod error;
pub mod history;
pub mod laws;
pub mod migration;
pub mod runner;
pub mod script;
pub mod store;
pub mod version;
