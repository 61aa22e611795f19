//! The cached vault: its encrypted form, the key that opens it and the cache
//! that holds one blob per identity.

pub mod db;
pub mod db_cache;
pub mod encrypted;
pub mod entry;
pub mod keepass;
pub mod key;
