use vstd::prelude::*;
use crate::text::clone_opt;
use crate::text::opt_view;

verus! {

/// How far below the base a directory search goes.
#[derive(Debug, Clone, Copy, PartialEq, Eq, Structural)]
pub enum Scope {
    Subtree,
    Base,
    OneLevel,
}

impl Default for Scope {
    fn default() -> (scope: Self)
        ensures
            scope == Scope::Subtree,
    {
        Scope::Subtree
    }
}

/// How to reach the directory and where to look for users.
#[derive(Debug)]
pub struct Ldap {
    pub uri: String,
    pub scope: Scope,
    pub base_dn: String,
    pub filter: String,
    pub login_attribute: String,
    pub bind: String,
    pub password: String,
    pub database_attribute: Option<String>,
    pub keyfile_attribute: Option<String>,
}

/// What a `Ldap` holds, as mathematical values.
pub struct LdapView {
    pub uri: Seq<char>,
    pub scope: Scope,
    pub base_dn: Seq<char>,
    pub filter: Seq<char>,
    pub login_attribute: Seq<char>,
    pub bind: Seq<char>,
    pub password: Seq<char>,
    pub database_attribute: Option<Seq<char>>,
    pub keyfile_attribute: Option<Seq<char>>,
}

impl View for Ldap {
    type V = LdapView;

    open spec fn view(&self) -> LdapView {
        LdapView {
            uri: self.uri@,
            scope: self.scope,
            base_dn: self.base_dn@,
            filter: self.filter@,
            login_attribute: self.login_attribute@,
            bind: self.bind@,
            password: self.password@,
            database_attribute: opt_view(self.database_attribute),
            keyfile_attribute: opt_view(self.keyfile_attribute),
        }
    }
}

impl Clone for Ldap {
    fn clone(&self) -> (copy: Self)
        ensures
            copy@ == self@,
    {
        Ldap {
            uri: self.uri.clone(),
            scope: self.scope,
            base_dn: self.base_dn.clone(),
            filter: self.filter.clone(),
            login_attribute: self.login_attribute.clone(),
            bind: self.bind.clone(),
            password: self.password.clone(),
            database_attribute: clone_opt(&self.database_attribute),
            keyfile_attribute: clone_opt(&self.keyfile_attribute),
        }
    }
}

/// The directory that is asked where nothing else is configured.
pub open spec fn ldap_default() -> LdapView {
    LdapView {
        uri: "ldap://localhost:339"@,
        scope: Scope::Subtree,
        base_dn: ""@,
        filter: "()"@,
        login_attribute: "uid"@,
        bind: ""@,
        password: ""@,
        database_attribute: None,
        keyfile_attribute: None,
    }
}

impl Default for Ldap {
    fn default() -> (config: Self)
        ensures
            config@ == ldap_default(),
    {
        Ldap {
            uri: "ldap://localhost:339".to_owned(),
            scope: Scope::Subtree,
            base_dn: "".to_owned(),
            filter: "()".to_owned(),
            login_attribute: "uid".to_owned(),
            bind: "".to_owned(),
            password: "".to_owned(),
            database_attribute: None,
            keyfile_attribute: None,
        }
    }
}

} // verus!
