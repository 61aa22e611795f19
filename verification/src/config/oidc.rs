use vstd::prelude::*;
use crate::config::ConfigError;
use crate::text::clone_opt;
use crate::text::clone_strings;
use crate::text::opt_view;
use crate::text::texts_view;

verus! {

/// Which identity provider to send users to, and as which client.
#[derive(Debug)]
pub struct Oidc {
    pub issuer: Option<String>,
    pub client_id: String,
    pub client_secret: String,
    pub scopes: Vec<String>,
    pub save_id_token: bool,
}

/// What a `Oidc` holds, as mathematical values.
pub struct OidcView {
    pub issuer: Option<Seq<char>>,
    pub client_id: Seq<char>,
    pub client_secret: Seq<char>,
    pub scopes: Seq<Seq<char>>,
    pub save_id_token: bool,
}

impl View for Oidc {
    type V = OidcView;

    open spec fn view(&self) -> OidcView {
        OidcView {
            issuer: opt_view(self.issuer),
            client_id: self.client_id@,
            client_secret: self.client_secret@,
            scopes: texts_view(self.scopes@),
            save_id_token: self.save_id_token,
        }
    }
}

impl Clone for Oidc {
    fn clone(&self) -> (copy: Self)
        ensures
            copy@ == self@,
    {
        Oidc {
            issuer: clone_opt(&self.issuer),
            client_id: self.client_id.clone(),
            client_secret: self.client_secret.clone(),
            scopes: clone_strings(&self.scopes),
            save_id_token: self.save_id_token,
        }
    }
}

impl Default for Oidc {
    fn default() -> (config: Self)
        ensures
            config@ == (OidcView {
                issuer: None,
                client_id: Seq::<char>::empty(),
                client_secret: Seq::<char>::empty(),
                scopes: Seq::<Seq<char>>::empty(),
                save_id_token: false,
            }),
    {
        let config = Oidc {
            issuer: None,
            client_id: String::new(),
            client_secret: String::new(),
            scopes: Vec::new(),
            save_id_token: false,
        };
        assert(texts_view(config.scopes@) =~= Seq::<Seq<char>>::empty());
        config
    }
}

/// What the configuration lacks first: the issuer, then the client id, then
/// the client secret.
pub open spec fn oidc_missing(config: OidcView) -> Option<ConfigError> {
    if config.issuer is None {
        Some(ConfigError::OidcIssuer)
    } else if config.client_id.len() == 0 {
        Some(ConfigError::OidcClientId)
    } else if config.client_secret.len() == 0 {
        Some(ConfigError::OidcClientSecret)
    } else {
        None
    }
}

impl Oidc {
    /// What the configuration lacks first: the issuer, then the client id,
    /// then the client secret.
    pub open spec fn missing(&self) -> Option<ConfigError> {
        oidc_missing(self@)
    }

    /// A configuration is complete once it names the issuer, the client id
    /// and the client secret.
    pub fn validate(&self) -> (r: Result<(), ConfigError>)
        ensures
            r is Ok <==> self.missing() is None,
            r matches Err(e) ==> self.missing() == Some(e),
    {
        if self.issuer.is_none() {
            return Err(ConfigError::OidcIssuer);
        }
        if self.client_id.as_str().is_empty() {
            return Err(ConfigError::OidcClientId);
        }
        if self.client_secret.as_str().is_empty() {
            return Err(ConfigError::OidcClientSecret);
        }
        Ok(())
    }
}

} // verus!
