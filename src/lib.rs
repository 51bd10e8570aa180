//! A key-value store with optional at-rest encryption, per-key locking,
//! numeric updates and an HTTP request contract, verified with Verus.
pub mod cipher;
pub mod client;
pub mod config;
pub mod logger;
pub mod router;
pub mod store;
pub mod text;
pub mod token;
