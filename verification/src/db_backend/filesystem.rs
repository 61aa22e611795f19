use vstd::prelude::*;
use crate::auth_backend::UserInfo;
use crate::config::config::Config;
use crate::text::opt_view;

verus! {

/// Vault and key file on disk.
pub struct Filesystem {
    pub config: crate::config::filesystem::Filesystem,
}

impl Filesystem {
    /// The backend with its part of `config`.
    pub fn new(config: &Config) -> (backend: Self)
        ensures
            backend.config@ == config.filesystem@,
    {
        Filesystem { config: config.filesystem.clone() }
    }

    /// The path of the vault of `user_info`: the user's own where the
    /// identity names one, the configured one otherwise.
    pub fn db_path(&self, user_info: &UserInfo) -> (path: String)
        ensures
            path@ == (match user_info@.db_location {
                Some(own) => own,
                None => self.config.db_location@,
            }),
    {
        match &user_info.db_location {
            Some(own) => own.clone(),
            None => self.config.db_location.clone(),
        }
    }

    /// The path of the key file of `user_info`: the user's own where the
    /// identity names one, else the configured one, else none.
    pub fn key_path(&self, user_info: &UserInfo) -> (path: Option<String>)
        ensures
            opt_view(path) == (match user_info@.keyfile_location {
                Some(own) => Some(own),
                None => opt_view(self.config.keyfile_location),
            }),
    {
        match &user_info.keyfile_location {
            Some(own) => Some(own.clone()),
            None => match &self.config.keyfile_location {
                Some(configured) => Some(configured.clone()),
                None => None,
            },
        }
    }

}

} // verus!
