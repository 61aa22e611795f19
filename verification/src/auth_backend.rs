//! Authentication backends: who a user is, by one of several means.

use vstd::prelude::*;
use crate::text::clone_opt;
use crate::text::opt_view;
use crate::text::concat;
use crate::text::texts_view;
use crate::config::ConfigError;
use crate::config::backend;
use crate::config::config::Config;
use crate::auth_backend::htpasswd::Htpasswd;
use crate::auth_backend::ldap::Ldap;
use crate::auth_backend::none::NoAuth;
use crate::auth_backend::oidc::Oidc;
use crate::auth_backend::test::Test;
use crate::auth_backend::oidc::FlowState;
use crate::auth_backend::oidc::FlowStateView;

pub mod htpasswd;
pub mod ldap;
pub mod none;
pub mod oidc;
pub mod test;

verus! {

/// Session key under which the state of a login in flight is kept.
pub const SESSION_KEY_AUTH_STATE: &'static str = "auth_state";

/// Route that an outside identity provider sends the browser back to.
pub const ROUTE_CALLBACK_USER_AUTH: &'static str = "/callback_user_auth";

/// Who a user is, whichever backend said so.
#[derive(Debug)]
pub struct UserInfo {
    pub id: String,
    pub name: String,
    pub db_location: Option<String>,
    pub keyfile_location: Option<String>,
    pub additional_data: Option<String>,
}

/// What a `UserInfo` holds, as mathematical values.
pub struct UserInfoView {
    pub id: Seq<char>,
    pub name: Seq<char>,
    pub db_location: Option<Seq<char>>,
    pub keyfile_location: Option<Seq<char>>,
    pub additional_data: Option<Seq<char>>,
}

impl View for UserInfo {
    type V = UserInfoView;

    open spec fn view(&self) -> UserInfoView {
        UserInfoView {
            id: self.id@,
            name: self.name@,
            db_location: opt_view(self.db_location),
            keyfile_location: opt_view(self.keyfile_location),
            additional_data: opt_view(self.additional_data),
        }
    }
}

impl Clone for UserInfo {
    fn clone(&self) -> (copy: Self)
        ensures
            copy@ == self@,
    {
        UserInfo {
            id: self.id.clone(),
            name: self.name.clone(),
            db_location: clone_opt(&self.db_location),
            keyfile_location: clone_opt(&self.keyfile_location),
            additional_data: clone_opt(&self.additional_data),
        }
    }
}

impl Default for UserInfo {
    fn default() -> (info: Self)
        ensures
            info@ == (UserInfoView {
                id: Seq::<char>::empty(),
                name: Seq::<char>::empty(),
                db_location: None,
                keyfile_location: None,
                additional_data: None,
            }),
    {
        UserInfo {
            id: String::new(),
            name: String::new(),
            db_location: None,
            keyfile_location: None,
            additional_data: None,
        }
    }
}

impl UserInfo {
    /// The identity that a backend without directory data gives to
    /// `username`: id and display name are the name itself.
    pub fn named(username: &str) -> (info: Self)
        ensures
            info@ == (UserInfoView {
                id: username@,
                name: username@,
                db_location: None,
                keyfile_location: None,
                additional_data: None,
            }),
    {
        UserInfo {
            id: username.to_owned(),
            name: username.to_owned(),
            db_location: None,
            keyfile_location: None,
            additional_data: None,
        }
    }
}

/// Why a backend did not say who the user is.
#[derive(Debug)]
pub enum AuthError {
    /// Name or password is wrong, or the user is unknown.
    IncorrectCredentials,
    /// The backend has no such way to log in.
    NotSupported,
    /// The directory entry has no common name.
    CnAttributeMissing,
    /// The directory entry lacks the attribute that holds the login name.
    LoginAttributeMissing { attribute: String },
    /// The identity provider reported an error.
    Provider { error: String, description: Option<String> },
    /// The anti-forgery token that came back is not the one sent out.
    InvalidCsrfToken,
    /// The provider's answer holds no identity token.
    NoIdToken,
    /// The access token does not match the hash in the identity token.
    InvalidAccessToken,
    /// The identity token holds no hash of the access token.
    AccessTokenHashMissing,
    /// The provider's data is not at hand.
    NoProviderMetadata,
    /// The provider names no place to end a session at.
    NoSessionEndpoint,
    /// Work outside the backend's rules failed: the directory or the
    /// provider could not be reached, or refused.
    Outside { message: String },
}

/// What a `AuthError` holds, as mathematical values.
pub enum AuthErrorView {
    IncorrectCredentials,
    NotSupported,
    CnAttributeMissing,
    LoginAttributeMissing { attribute: Seq<char> },
    Provider { error: Seq<char>, description: Option<Seq<char>> },
    InvalidCsrfToken,
    NoIdToken,
    InvalidAccessToken,
    AccessTokenHashMissing,
    NoProviderMetadata,
    NoSessionEndpoint,
    Outside { message: Seq<char> },
}

impl View for AuthError {
    type V = AuthErrorView;

    open spec fn view(&self) -> AuthErrorView {
        match *self {
            AuthError::IncorrectCredentials => AuthErrorView::IncorrectCredentials,
            AuthError::NotSupported => AuthErrorView::NotSupported,
            AuthError::CnAttributeMissing => AuthErrorView::CnAttributeMissing,
            AuthError::LoginAttributeMissing { attribute } => AuthErrorView::LoginAttributeMissing {
                attribute: attribute@,
            },
            AuthError::Provider { error, description } => AuthErrorView::Provider {
                error: error@,
                description: opt_view(description),
            },
            AuthError::InvalidCsrfToken => AuthErrorView::InvalidCsrfToken,
            AuthError::NoIdToken => AuthErrorView::NoIdToken,
            AuthError::InvalidAccessToken => AuthErrorView::InvalidAccessToken,
            AuthError::AccessTokenHashMissing => AuthErrorView::AccessTokenHashMissing,
            AuthError::NoProviderMetadata => AuthErrorView::NoProviderMetadata,
            AuthError::NoSessionEndpoint => AuthErrorView::NoSessionEndpoint,
            AuthError::Outside { message } => AuthErrorView::Outside { message: message@ },
        }
    }
}

impl AuthErrorView {
    /// The error in words.
    pub open spec fn message(self) -> Seq<char> {
        match self {
            AuthErrorView::IncorrectCredentials => "username or password incorrect"@,
            AuthErrorView::NotSupported => "login method not supported"@,
            AuthErrorView::CnAttributeMissing => "CN attribute not found"@,
            AuthErrorView::LoginAttributeMissing { attribute } => "login attribute '"@ + attribute
                + "' not found"@,
            AuthErrorView::Provider { error, description } => match description {
                Some(text) => "error from auth server: "@ + error + ": "@ + text,
                None => "error from auth server: "@ + error,
            },
            AuthErrorView::InvalidCsrfToken => "invalid csrf token (state)"@,
            AuthErrorView::NoIdToken => "server did not return an ID token"@,
            AuthErrorView::InvalidAccessToken => "invalid access token"@,
            AuthErrorView::AccessTokenHashMissing => "access token hash is missing"@,
            AuthErrorView::NoProviderMetadata => "failed to retrieve provider metadata from cache"@,
            AuthErrorView::NoSessionEndpoint => "no session endpoint defined"@,
            AuthErrorView::Outside { message } => message,
        }
    }
}

impl AuthError {
    /// The error in words.
    pub fn message(&self) -> (text: String)
        ensures
            text@ == self@.message(),
    {
        match self {
            AuthError::IncorrectCredentials => "username or password incorrect".to_owned(),
            AuthError::NotSupported => "login method not supported".to_owned(),
            AuthError::CnAttributeMissing => "CN attribute not found".to_owned(),
            AuthError::LoginAttributeMissing { attribute } => {
                let mut text = concat("login attribute '", attribute.as_str());
                text.append("' not found");
                text
            },
            AuthError::Provider { error, description } => {
                let mut text = concat("error from auth server: ", error.as_str());
                match description {
                    Some(more) => {
                        text.append(": ");
                        text.append(more.as_str());
                    },
                    None => {},
                }
                text
            },
            AuthError::InvalidCsrfToken => "invalid csrf token (state)".to_owned(),
            AuthError::NoIdToken => "server did not return an ID token".to_owned(),
            AuthError::InvalidAccessToken => "invalid access token".to_owned(),
            AuthError::AccessTokenHashMissing => "access token hash is missing".to_owned(),
            AuthError::NoProviderMetadata => "failed to retrieve provider metadata from cache".to_owned(),
            AuthError::NoSessionEndpoint => "no session endpoint defined".to_owned(),
            AuthError::Outside { message } => message.clone(),
        }
    }
}

/// The view of a login's outcome.
pub open spec fn login_view(r: Result<UserInfo, AuthError>) -> Result<UserInfoView, AuthErrorView> {
    match r {
        Ok(user) => Ok(user@),
        Err(e) => Err(e@),
    }
}

/// How the client is to present the login step.
#[derive(Debug)]
pub enum LoginType {
    /// No login step applies.
    Nothing,
    /// A form for name and password.
    Mask,
    /// The browser goes to `url`; `state` stays on the server and comes back
    /// to the backend with the callback.
    Redirect { url: String, state: FlowState },
}

/// What a `LoginType` holds, as mathematical values.
pub enum LoginTypeView {
    Nothing,
    Mask,
    Redirect { url: Seq<char>, state: FlowStateView },
}

impl View for LoginType {
    type V = LoginTypeView;

    open spec fn view(&self) -> LoginTypeView {
        match *self {
            LoginType::Nothing => LoginTypeView::Nothing,
            LoginType::Mask => LoginTypeView::Mask,
            LoginType::Redirect { url, state } => LoginTypeView::Redirect {
                url: url@,
                state: state@,
            },
        }
    }
}

impl Clone for LoginType {
    fn clone(&self) -> (copy: Self)
        ensures
            copy@ == self@,
    {
        match self {
            LoginType::Nothing => LoginType::Nothing,
            LoginType::Mask => LoginType::Mask,
            LoginType::Redirect { url, state } => LoginType::Redirect {
                url: url.clone(),
                state: state.clone(),
            },
        }
    }
}

/// Where the client goes after a logout.
#[derive(Debug)]
pub enum LogoutType {
    /// Nowhere.
    Nothing,
    /// To the provider's end-of-session page at `url`.
    Redirect { url: String },
}

/// What a `LogoutType` holds, as mathematical values.
pub enum LogoutTypeView {
    Nothing,
    Redirect { url: Seq<char> },
}

impl View for LogoutType {
    type V = LogoutTypeView;

    open spec fn view(&self) -> LogoutTypeView {
        match *self {
            LogoutType::Nothing => LogoutTypeView::Nothing,
            LogoutType::Redirect { url } => LogoutTypeView::Redirect { url: url@ },
        }
    }
}

impl Clone for LogoutType {
    fn clone(&self) -> (copy: Self)
        ensures
            copy@ == self@,
    {
        match self {
            LogoutType::Nothing => LogoutType::Nothing,
            LogoutType::Redirect { url } => LogoutType::Redirect { url: url.clone() },
        }
    }
}

/// What every backend can be asked.
pub trait AuthBackend {
    /// What the backend's configuration lacks, if anything.
    spec fn missing(&self) -> Option<ConfigError>;

    /// Checks the backend's configuration.
    fn validate_config(&self) -> (r: Result<(), ConfigError>)
        ensures
            r is Ok <==> self.missing() is None,
            r matches Err(e) ==> self.missing() == Some(e),
    ;

    /// Whether users log in at an identity provider instead of a form.
    spec fn redirects(&self) -> bool;

    /// Whether users log in at an identity provider instead of a form.
    fn uses_redirect(&self) -> (r: bool)
        ensures
            r == self.redirects(),
    ;

    /// The session keys that the backend keeps state under: the state of a
    /// login in flight where users log in by redirect, none otherwise.
    fn get_session_keys(&self) -> (keys: Vec<String>)
        ensures
            texts_view(keys@) == (if self.redirects() {
                seq![SESSION_KEY_AUTH_STATE@]
            } else {
                Seq::<Seq<char>>::empty()
            }),
    ;
}

fn session_keys(redirects: bool) -> (keys: Vec<String>)
    ensures
        texts_view(keys@) == (if redirects {
            seq![SESSION_KEY_AUTH_STATE@]
        } else {
            Seq::<Seq<char>>::empty()
        }),
{
    let mut keys: Vec<String> = Vec::new();
    if redirects {
        keys.push(SESSION_KEY_AUTH_STATE.to_owned());
        assert(texts_view(keys@) =~= seq![SESSION_KEY_AUTH_STATE@]);
    } else {
        assert(texts_view(keys@) =~= Seq::<Seq<char>>::empty());
    }
    keys
}

impl AuthBackend for NoAuth {
    open spec fn missing(&self) -> Option<ConfigError> {
        None
    }

    fn validate_config(&self) -> (r: Result<(), ConfigError>) {
        Ok(())
    }

    open spec fn redirects(&self) -> bool {
        false
    }

    fn uses_redirect(&self) -> (r: bool) {
        false
    }

    fn get_session_keys(&self) -> (keys: Vec<String>) {
        session_keys(false)
    }
}

impl AuthBackend for Test {
    open spec fn missing(&self) -> Option<ConfigError> {
        None
    }

    fn validate_config(&self) -> (r: Result<(), ConfigError>) {
        Ok(())
    }

    open spec fn redirects(&self) -> bool {
        false
    }

    fn uses_redirect(&self) -> (r: bool) {
        false
    }

    fn get_session_keys(&self) -> (keys: Vec<String>) {
        session_keys(false)
    }
}

impl AuthBackend for Ldap {
    open spec fn missing(&self) -> Option<ConfigError> {
        None
    }

    fn validate_config(&self) -> (r: Result<(), ConfigError>) {
        Ok(())
    }

    open spec fn redirects(&self) -> bool {
        false
    }

    fn uses_redirect(&self) -> (r: bool) {
        false
    }

    fn get_session_keys(&self) -> (keys: Vec<String>) {
        session_keys(false)
    }
}

impl AuthBackend for Htpasswd {
    open spec fn missing(&self) -> Option<ConfigError> {
        if self.config.path@.len() == 0 {
            Some(ConfigError::HtpasswdPath)
        } else {
            None
        }
    }

    fn validate_config(&self) -> (r: Result<(), ConfigError>) {
        self.config.validate()
    }

    open spec fn redirects(&self) -> bool {
        false
    }

    fn uses_redirect(&self) -> (r: bool) {
        false
    }

    fn get_session_keys(&self) -> (keys: Vec<String>) {
        session_keys(false)
    }
}

impl AuthBackend for Oidc {
    open spec fn missing(&self) -> Option<ConfigError> {
        self.config.missing()
    }

    fn validate_config(&self) -> (r: Result<(), ConfigError>) {
        self.config.validate()
    }

    open spec fn redirects(&self) -> bool {
        true
    }

    fn uses_redirect(&self) -> (r: bool) {
        true
    }

    fn get_session_keys(&self) -> (keys: Vec<String>) {
        session_keys(true)
    }
}

/// The backend that the configuration chose.
pub enum Backend {
    Nothing(NoAuth),
    Test(Test),
    Ldap(Ldap),
    Oidc(Oidc),
    Htpasswd(Htpasswd),
}

impl AuthBackend for Backend {
    open spec fn missing(&self) -> Option<ConfigError> {
        match *self {
            Backend::Nothing(b) => b.missing(),
            Backend::Test(b) => b.missing(),
            Backend::Ldap(b) => b.missing(),
            Backend::Oidc(b) => b.missing(),
            Backend::Htpasswd(b) => b.missing(),
        }
    }

    fn validate_config(&self) -> (r: Result<(), ConfigError>) {
        match self {
            Backend::Nothing(b) => b.validate_config(),
            Backend::Test(b) => b.validate_config(),
            Backend::Ldap(b) => b.validate_config(),
            Backend::Oidc(b) => b.validate_config(),
            Backend::Htpasswd(b) => b.validate_config(),
        }
    }

    open spec fn redirects(&self) -> bool {
        self is Oidc
    }

    fn uses_redirect(&self) -> (r: bool) {
        match self {
            Backend::Oidc(_) => true,
            _ => false,
        }
    }

    fn get_session_keys(&self) -> (keys: Vec<String>) {
        session_keys(self.uses_redirect())
    }
}

/// The backend that `config` names, with its part of the configuration.
pub fn new(config: &Config) -> (chosen: Backend)
    ensures
        match config.auth_backend {
            backend::AuthBackend::Nothing => chosen is Nothing,
            backend::AuthBackend::Test => chosen is Test,
            backend::AuthBackend::Ldap => chosen is Ldap && chosen->Ldap_0.config@ == config.ldap@,
            backend::AuthBackend::Oidc => chosen is Oidc && chosen->Oidc_0.config@ == config.oidc@,
            backend::AuthBackend::Htpasswd => chosen is Htpasswd && chosen->Htpasswd_0.config@
                == config.htpasswd@,
        },
{
    match config.auth_backend {
        backend::AuthBackend::Nothing => Backend::Nothing(NoAuth {  }),
        backend::AuthBackend::Test => Backend::Test(Test {  }),
        backend::AuthBackend::Ldap => Backend::Ldap(Ldap::new(config)),
        backend::AuthBackend::Oidc => Backend::Oidc(Oidc::new(config)),
        backend::AuthBackend::Htpasswd => Backend::Htpasswd(Htpasswd::new(config)),
    }
}

} // verus!
