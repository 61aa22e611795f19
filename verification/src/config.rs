//! The broker's configuration, as plain values.

use vstd::prelude::*;

pub mod backend;
pub mod config;
pub mod cookie;
pub mod filesystem;
pub mod htpasswd;
pub mod http;
pub mod key;
pub mod ldap;
pub mod oidc;
pub mod search;

verus! {

/// What a configuration lacks.
#[derive(Debug, Clone, Copy, PartialEq, Eq, Structural)]
pub enum ConfigError {
    FilesystemDbLocation,
    HtpasswdPath,
    OidcIssuer,
    OidcClientId,
    OidcClientSecret,
}

impl ConfigError {
    /// The error in words.
    pub open spec fn spec_message(self) -> Seq<char> {
        match self {
            ConfigError::FilesystemDbLocation => "Filesystem: db location must be specified"@,
            ConfigError::HtpasswdPath => "Htpasswd: path must be specified"@,
            ConfigError::OidcIssuer => "issuer cannot be empty"@,
            ConfigError::OidcClientId => "OIDC: client_id must be specified"@,
            ConfigError::OidcClientSecret => "OIDC: secret_key must be specified"@,
        }
    }

    /// The error in words.
    pub fn message(&self) -> (text: String)
        ensures
            text@ == self.spec_message(),
    {
        match self {
            ConfigError::FilesystemDbLocation => "Filesystem: db location must be specified".to_owned(),
            ConfigError::HtpasswdPath => "Htpasswd: path must be specified".to_owned(),
            ConfigError::OidcIssuer => "issuer cannot be empty".to_owned(),
            ConfigError::OidcClientId => "OIDC: client_id must be specified".to_owned(),
            ConfigError::OidcClientSecret => "OIDC: secret_key must be specified".to_owned(),
        }
    }
}

} // verus!
