use vstd::prelude::*;
use crate::config::config::Config;

verus! {

/// The broker's listener.
pub struct Server;

impl Server {
    /// The lifetime of the session cookie in whole seconds.
    pub fn session_ttl_seconds(config: &Config) -> (seconds: u64)
        ensures
            seconds == config.session_lifetime / 1000,
    {
        config.session_lifetime / 1000
    }
}

} // verus!
