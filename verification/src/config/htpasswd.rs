use vstd::prelude::*;
use crate::config::ConfigError;

verus! {

/// Where the password file lies.
#[derive(Debug)]
pub struct Htpasswd {
    pub path: String,
}

/// What a `Htpasswd` holds, as mathematical values.
pub struct HtpasswdView {
    pub path: Seq<char>,
}

impl View for Htpasswd {
    type V = HtpasswdView;

    open spec fn view(&self) -> HtpasswdView {
        HtpasswdView { path: self.path@ }
    }
}

impl Clone for Htpasswd {
    fn clone(&self) -> (copy: Self)
        ensures
            copy@ == self@,
    {
        Htpasswd { path: self.path.clone() }
    }
}

impl Default for Htpasswd {
    fn default() -> (config: Self)
        ensures
            config@ == (HtpasswdView { path: Seq::<char>::empty() }),
    {
        Htpasswd { path: String::new() }
    }
}

impl Htpasswd {
    /// A configuration is complete once it names the password file.
    pub fn validate(&self) -> (r: Result<(), ConfigError>)
        ensures
            r is Ok <==> self.path@.len() > 0,
            r is Err ==> r == Err::<(), ConfigError>(ConfigError::HtpasswdPath),
    {
        if self.path.as_str().is_empty() {
            return Err(ConfigError::HtpasswdPath);
        }
        Ok(())
    }
}

} // verus!
