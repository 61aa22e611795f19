use vstd::prelude::*;
use crate::text::clone_opt;
use crate::text::opt_view;

verus! {

/// Name and password for the vault's web server.
#[derive(Debug)]
pub struct Credentials {
    pub username: String,
    pub password: Option<String>,
}

/// What a `Credentials` holds, as mathematical values.
pub struct CredentialsView {
    pub username: Seq<char>,
    pub password: Option<Seq<char>>,
}

impl View for Credentials {
    type V = CredentialsView;

    open spec fn view(&self) -> CredentialsView {
        CredentialsView { username: self.username@, password: opt_view(self.password) }
    }
}

impl Clone for Credentials {
    fn clone(&self) -> (copy: Self)
        ensures
            copy@ == self@,
    {
        Credentials { username: self.username.clone(), password: clone_opt(&self.password) }
    }
}

impl Default for Credentials {
    fn default() -> (credentials: Self)
        ensures
            credentials@ == (CredentialsView { username: Seq::<char>::empty(), password: None }),
    {
        Credentials { username: String::new(), password: None }
    }
}

/// Where vault and key file lie on the web, and how to ask for them.
#[derive(Debug)]
pub struct Http {
    pub database_url: Option<String>,
    pub keyfile_url: Option<String>,
    pub credentials: Option<Credentials>,
    pub bearer: Option<String>,
}

/// What a `Http` holds, as mathematical values.
pub struct HttpView {
    pub database_url: Option<Seq<char>>,
    pub keyfile_url: Option<Seq<char>>,
    pub credentials: Option<CredentialsView>,
    pub bearer: Option<Seq<char>>,
}

impl View for Http {
    type V = HttpView;

    open spec fn view(&self) -> HttpView {
        HttpView {
            database_url: opt_view(self.database_url),
            keyfile_url: opt_view(self.keyfile_url),
            credentials: match self.credentials {
                Some(c) => Some(c@),
                None => None,
            },
            bearer: opt_view(self.bearer),
        }
    }
}

impl Clone for Http {
    fn clone(&self) -> (copy: Self)
        ensures
            copy@ == self@,
    {
        Http {
            database_url: clone_opt(&self.database_url),
            keyfile_url: clone_opt(&self.keyfile_url),
            credentials: match &self.credentials {
                Some(c) => Some(c.clone()),
                None => None,
            },
            bearer: clone_opt(&self.bearer),
        }
    }
}

impl Default for Http {
    fn default() -> (config: Self)
        ensures
            config@ == (HttpView {
                database_url: None,
                keyfile_url: None,
                credentials: None,
                bearer: None,
            }),
    {
        Http { database_url: None, keyfile_url: None, credentials: None, bearer: None }
    }
}

} // verus!
