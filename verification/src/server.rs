//! What the broker answers, route by route.

pub mod route;
pub mod server;
