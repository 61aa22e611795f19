//! Where the vault file comes from. The backends here decide which place is
//! read; the reading itself is done around the library.

use vstd::prelude::*;
use crate::config::backend;
use crate::config::config::Config;
use crate::config::ConfigError;
use crate::db_backend::filesystem::Filesystem;
use crate::db_backend::http::Http;
use crate::db_backend::test::Test;

pub mod filesystem;
pub mod http;
pub mod test;

verus! {

/// What every vault backend can be asked.
pub trait DbBackend {
    /// What the backend's configuration lacks, if anything.
    spec fn missing(&self) -> Option<ConfigError>;

    /// Whether the backend itself has let the broker in. None of the
    /// backends asks for a login of its own.
    fn authenticated(&self) -> (r: bool)
        ensures
            r,
    ;

    /// Checks the backend's configuration.
    fn validate_config(&self) -> (r: Result<(), ConfigError>)
        ensures
            r is Ok <==> self.missing() is None,
            r matches Err(e) ==> self.missing() == Some(e),
    ;
}

impl DbBackend for Test {
    open spec fn missing(&self) -> Option<ConfigError> {
        None
    }

    fn authenticated(&self) -> (r: bool) {
        true
    }

    fn validate_config(&self) -> (r: Result<(), ConfigError>) {
        Ok(())
    }
}

impl DbBackend for Filesystem {
    open spec fn missing(&self) -> Option<ConfigError> {
        if self.config@.db_location.len() == 0 {
            Some(ConfigError::FilesystemDbLocation)
        } else {
            None
        }
    }

    fn authenticated(&self) -> (r: bool) {
        true
    }

    fn validate_config(&self) -> (r: Result<(), ConfigError>) {
        self.config.validate()
    }
}

impl DbBackend for Http {
    open spec fn missing(&self) -> Option<ConfigError> {
        None
    }

    fn authenticated(&self) -> (r: bool) {
        true
    }

    fn validate_config(&self) -> (r: Result<(), ConfigError>) {
        Ok(())
    }
}

/// The vault backend that the configuration chose.
pub enum Backend {
    Test(Test),
    Filesystem(Filesystem),
    Http(Http),
}

impl DbBackend for Backend {
    open spec fn missing(&self) -> Option<ConfigError> {
        match *self {
            Backend::Test(b) => b.missing(),
            Backend::Filesystem(b) => b.missing(),
            Backend::Http(b) => b.missing(),
        }
    }

    fn authenticated(&self) -> (r: bool) {
        match self {
            Backend::Test(b) => b.authenticated(),
            Backend::Filesystem(b) => b.authenticated(),
            Backend::Http(b) => b.authenticated(),
        }
    }

    fn validate_config(&self) -> (r: Result<(), ConfigError>) {
        match self {
            Backend::Test(b) => b.validate_config(),
            Backend::Filesystem(b) => b.validate_config(),
            Backend::Http(b) => b.validate_config(),
        }
    }
}

/// The vault backend that `config` names.
pub fn new(config: &Config) -> (chosen: Backend)
    ensures
        match config.db_backend {
            backend::DbBackend::Test => chosen is Test && chosen->Test_0.buf@.len() == 0,
            backend::DbBackend::Filesystem => chosen is Filesystem
                && chosen->Filesystem_0.config@ == config.filesystem@,
            backend::DbBackend::Http => chosen is Http && chosen->Http_0.config@ == config.http@,
        },
{
    match config.db_backend {
        backend::DbBackend::Test => Backend::Test(Test::new()),
        backend::DbBackend::Filesystem => Backend::Filesystem(Filesystem::new(config)),
        backend::DbBackend::Http => Backend::Http(Http::new(config)),
    }
}

} // verus!
