//! A connection manager for a pool of SurrealDB connections.
//!
//! The manager owns one [`DatabaseSettings`] value. From it, it decides how a
//! connection is to be opened ([`ConnectionManager::connect`]), judges a health
//! probe ([`ConnectionManager::is_valid`]) and reports breakage
//! ([`ConnectionManager::has_broken`]). The decisions are verified; opening
//! sockets and awaiting replies is left to the caller.

pub mod endpoint;
pub mod errors;
pub mod manager;
pub mod settings;

pub use manager::{ConnectionManager, ConnectionPlan, RootCredentials};
pub use settings::{DatabaseSettings, DatabaseType};
