//! Session and secret-lifecycle core of a web-facing credential broker that
//! sits in front of a personal secrets vault.
//!
//! The crate holds the rules of the broker as verified functions over plain
//! values: the authentication backends and the federated login flow, the
//! per-request authentication guard, the cache of re-encrypted vaults and the
//! store of the keys that open them.

pub mod auth;
pub mod auth_backend;
pub mod config;
pub mod db_backend;
pub mod keepass;
pub mod server;
pub mod session;
pub mod text;
