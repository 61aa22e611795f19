use vstd::prelude::*;
use crate::config::backend::AuthBackend;
use crate::config::backend::DbBackend;
use crate::config::filesystem::Filesystem;
use crate::config::filesystem::FilesystemView;
use crate::config::htpasswd::Htpasswd;
use crate::config::htpasswd::HtpasswdView;
use crate::config::http::Http;
use crate::config::http::HttpView;
use crate::config::key::CookieKey;
use crate::config::ldap::ldap_default;
use crate::config::ldap::Ldap;
use crate::config::oidc::Oidc;
use crate::config::oidc::OidcView;
use crate::config::search::search_default;
use crate::config::search::Search;
use crate::config::ConfigError;

verus! {

/// Everything the broker is told at start. Durations are in milliseconds.
#[derive(Debug)]
pub struct Config {
    pub listen: String,
    pub port: u16,
    pub db_session_timeout: u64,
    pub auth_check_interval: u64,
    pub auth_backend: AuthBackend,
    pub db_backend: DbBackend,
    pub session_secret_key: CookieKey,
    pub session_lifetime: u64,
    pub search: Search,
    pub ldap: Ldap,
    pub oidc: Oidc,
    pub filesystem: Filesystem,
    pub htpasswd: Htpasswd,
    pub http: Http,
}

impl Default for Config {
    fn default() -> (config: Self)
        ensures
            config.listen@ == "127.0.0.1"@,
            config.port == 8080,
            config.db_session_timeout == 600_000,
            config.auth_check_interval == 3_900_000,
            config.auth_backend == AuthBackend::Nothing,
            config.db_backend == DbBackend::Filesystem,
            config.session_secret_key.0@.len() == 0,
            config.session_lifetime == 3_600_000,
            config.search@ == search_default(),
            config.ldap@ == ldap_default(),
            config.oidc@ == (OidcView {
                issuer: None,
                client_id: Seq::<char>::empty(),
                client_secret: Seq::<char>::empty(),
                scopes: Seq::<Seq<char>>::empty(),
                save_id_token: false,
            }),
            config.filesystem@ == (FilesystemView {
                db_location: Seq::<char>::empty(),
                keyfile_location: None,
            }),
            config.htpasswd@ == (HtpasswdView { path: Seq::<char>::empty() }),
            config.http@ == (HttpView {
                database_url: None,
                keyfile_url: None,
                credentials: None,
                bearer: None,
            }),
    {
        Config {
            listen: "127.0.0.1".to_owned(),
            port: 8080,
            db_session_timeout: 600_000,
            auth_check_interval: 3_900_000,
            auth_backend: AuthBackend::default(),
            db_backend: DbBackend::default(),
            session_secret_key: CookieKey::default(),
            session_lifetime: 3_600_000,
            search: Search::default(),
            ldap: Ldap::default(),
            oidc: Oidc::default(),
            filesystem: Filesystem::default(),
            htpasswd: Htpasswd::default(),
            http: Http::default(),
        }
    }
}

impl Config {
    /// What the chosen backends find missing: the authentication backend's
    /// complaint first, then the vault backend's.
    pub open spec fn missing(&self) -> Option<ConfigError> {
        let auth = match self.auth_backend {
            AuthBackend::Oidc => self.oidc.missing(),
            AuthBackend::Htpasswd => if self.htpasswd.path@.len() == 0 {
                Some(ConfigError::HtpasswdPath)
            } else {
                None
            },
            _ => None,
        };
        if auth is Some {
            auth
        } else if self.db_backend == DbBackend::Filesystem && self.filesystem.db_location@.len()
            == 0 {
            Some(ConfigError::FilesystemDbLocation)
        } else {
            None
        }
    }

    /// Checks the parts of the configuration that the chosen backends read.
    pub fn validate(&self) -> (r: Result<(), ConfigError>)
        ensures
            r is Ok <==> self.missing() is None,
            r matches Err(e) ==> self.missing() == Some(e),
    {
        match self.auth_backend {
            AuthBackend::Oidc => {
                match self.oidc.validate() {
                    Ok(()) => {},
                    Err(e) => return Err(e),
                }
            },
            AuthBackend::Htpasswd => {
                match self.htpasswd.validate() {
                    Ok(()) => {},
                    Err(e) => return Err(e),
                }
            },
            _ => {},
        }
        match self.db_backend {
            DbBackend::Filesystem => self.filesystem.validate(),
            _ => Ok(()),
        }
    }
}

} // verus!
