//! Storage core for a study-session tracker: a lifecycle-managed embedded
//! database handle with idempotent schema migration and a validated insert
//! command. The modules here hold the decision logic — what to migrate, what
//! to bind, when to admit a command, how the pool accounting moves — while an
//! unverified shell performs the actual file and database I/O.

pub mod command;
pub mod entry;
pub mod errors;
pub mod lifecycle;
pub mod migration;
pub mod model;
pub mod pool;
pub mod schema;
