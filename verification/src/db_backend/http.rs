use vstd::prelude::*;
use crate::auth_backend::UserInfo;
use crate::config::config::Config;
use crate::text::opt_view;

verus! {

/// Vault and key file on a web server.
pub struct Http {
    pub config: crate::config::http::Http,
}

/// The vault has no address: neither the configuration nor the identity
/// names one.
#[derive(Debug, Clone, Copy, PartialEq, Eq, Structural)]
pub struct NoDatabaseUrl;

impl NoDatabaseUrl {
    /// The error in words.
    pub fn message(&self) -> (text: String)
        ensures
            text@ == "database file not specified in config nor found in user info"@,
    {
        "database file not specified in config nor found in user info".to_owned()
    }
}

/// How a request to the web server proves who asks.
#[derive(Debug)]
pub struct RequestAuth {
    /// Name and password for basic authentication.
    pub basic: Option<(String, Option<String>)>,
    /// Token for bearer authentication.
    pub bearer: Option<String>,
}

impl Http {
    /// The backend with its part of `config`.
    pub fn new(config: &Config) -> (backend: Self)
        ensures
            backend.config@ == config.http@,
    {
        Http { config: config.http.clone() }
    }

    /// The address of the vault of `user_info`: the user's own where the
    /// identity names one, else the configured one.
    pub fn get_db_url(&self, user_info: &UserInfo) -> (r: Result<String, NoDatabaseUrl>)
        ensures
            match r {
                Ok(url) => Some(url@) == (match user_info@.db_location {
                    Some(own) => Some(own),
                    None => opt_view(self.config.database_url),
                }),
                Err(_) => user_info@.db_location is None && self.config.database_url is None,
            },
    {
        match &user_info.db_location {
            Some(own) => Ok(own.clone()),
            None => match &self.config.database_url {
                Some(configured) => Ok(configured.clone()),
                None => Err(NoDatabaseUrl),
            },
        }
    }

    /// The address of the key file of `user_info`: the user's own where the
    /// identity names one, else the configured one, else none.
    pub fn get_key_url(&self, user_info: &UserInfo) -> (url: Option<String>)
        ensures
            opt_view(url) == (match user_info@.keyfile_location {
                Some(own) => Some(own),
                None => opt_view(self.config.keyfile_url),
            }),
    {
        match &user_info.keyfile_location {
            Some(own) => Some(own.clone()),
            None => match &self.config.keyfile_url {
                Some(configured) => Some(configured.clone()),
                None => None,
            },
        }
    }

    /// What a request carries to prove who asks: the configured name and
    /// password, the configured bearer token, both or neither.
    pub fn get_request(&self) -> (auth: RequestAuth)
        ensures
            auth.basic is Some <==> self.config.credentials is Some,
            auth.basic matches Some(pair) ==> pair.0@ == self.config@.credentials->Some_0.username
                && opt_view(pair.1) == self.config@.credentials->Some_0.password,
            opt_view(auth.bearer) == opt_view(self.config.bearer),
    {
        let basic = match &self.config.credentials {
            Some(c) => {
                let c = c.clone();
                Some((c.username, c.password))
            },
            None => None,
        };
        let bearer = match &self.config.bearer {
            Some(token) => Some(token.clone()),
            None => None,
        };
        RequestAuth { basic, bearer }
    }
}

} // verus!
