use vstd::prelude::*;

verus! {

/// Which authentication backend says who the user is.
#[derive(Debug, Clone, Copy, PartialEq, Eq, Structural)]
pub enum AuthBackend {
    Nothing,
    Test,
    Ldap,
    Oidc,
    Htpasswd,
}

impl Default for AuthBackend {
    fn default() -> (backend: Self)
        ensures
            backend == AuthBackend::Nothing,
    {
        AuthBackend::Nothing
    }
}

/// Where the vault file comes from.
#[derive(Debug, Clone, Copy, PartialEq, Eq, Structural)]
pub enum DbBackend {
    Test,
    Filesystem,
    Http,
}

impl Default for DbBackend {
    fn default() -> (backend: Self)
        ensures
            backend == DbBackend::Filesystem,
    {
        DbBackend::Filesystem
    }
}

} // verus!
