use vstd::prelude::*;
use vstd::utf8::encode_utf8;
use crate::auth_backend::login_view;
use crate::auth_backend::AuthError;
use crate::auth_backend::AuthErrorView;
use crate::auth_backend::LoginType;
use crate::auth_backend::LoginTypeView;
use crate::auth_backend::UserInfo;
use crate::auth_backend::UserInfoView;
use crate::auth_backend::ROUTE_CALLBACK_USER_AUTH;
use crate::config::config::Config;
use crate::text::clone_opt;
use crate::text::concat;
use crate::text::opt_view;

verus! {

/// What the federated login keeps in the session between the redirect and
/// the callback: the anti-forgery token that the provider echoes, the nonce
/// that the identity token must carry, and the verifier of the proof key.
#[derive(Debug)]
pub struct FlowState {
    pub state: String,
    pub nonce: String,
    pub pkce: String,
}

/// What a `FlowState` holds, as mathematical values.
pub struct FlowStateView {
    pub state: Seq<char>,
    pub nonce: Seq<char>,
    pub pkce: Seq<char>,
}

impl View for FlowState {
    type V = FlowStateView;

    open spec fn view(&self) -> FlowStateView {
        FlowStateView { state: self.state@, nonce: self.nonce@, pkce: self.pkce@ }
    }
}

impl Clone for FlowState {
    fn clone(&self) -> (copy: Self)
        ensures
            copy@ == self@,
    {
        FlowState {
            state: self.state.clone(),
            nonce: self.nonce.clone(),
            pkce: self.pkce.clone(),
        }
    }
}

/// The address to send the browser to, and the fresh secrets that went into
/// it.
#[derive(Debug)]
pub struct AuthorizationRequest {
    pub url: String,
    pub csrf_token: String,
    pub nonce: String,
    pub pkce_verifier: String,
}

/// What the provider sent back with the browser.
#[derive(Debug)]
pub struct OidcParams {
    pub state: String,
    pub error: Option<String>,
    pub error_description: Option<String>,
    pub code: String,
}

/// What to exchange at the provider's token endpoint, and the nonce to hold
/// the identity token against.
#[derive(Debug)]
pub struct TokenRequest {
    pub code: String,
    pub pkce_verifier: String,
    pub nonce: String,
}

/// What a `TokenRequest` holds, as mathematical values.
pub struct TokenRequestView {
    pub code: Seq<char>,
    pub pkce_verifier: Seq<char>,
    pub nonce: Seq<char>,
}

impl View for TokenRequest {
    type V = TokenRequestView;

    open spec fn view(&self) -> TokenRequestView {
        TokenRequestView {
            code: self.code@,
            pkce_verifier: self.pkce_verifier@,
            nonce: self.nonce@,
        }
    }
}

/// The hash of the access token, as the identity token claims it and as
/// computed from the access token that came with it.
#[derive(Debug)]
pub struct AccessTokenHashes {
    pub claimed: String,
    /// The computed hash, or why none could be computed.
    pub computed: Result<String, String>,
}

/// What a verified identity token says.
#[derive(Debug)]
pub struct IdTokenClaims {
    pub subject: String,
    pub preferred_username: Option<String>,
    pub access_token_hash: Option<AccessTokenHashes>,
    pub database_location: Option<String>,
    pub keyfile_location: Option<String>,
    /// The token as it came.
    pub id_token: String,
}

/// What the exchange of the code and the check of the identity token gave.
#[derive(Debug)]
pub enum TokenOutcome {
    /// The token endpoint refused or could not be reached.
    ExchangeFailed { message: String },
    /// The answer holds no identity token.
    NoIdToken,
    /// The identity token's signature, nonce or dates do not hold.
    ClaimsRejected { message: String },
    /// The identity token holds, and says this.
    Verified(IdTokenClaims),
}

/// How the callback begins, given the state that the session kept and what
/// the provider sent. An error that the provider reports is passed on, with
/// its description where there is one. An anti-forgery token that differs
/// from the one kept fails the callback. Otherwise the code is to be
/// exchanged, with the verifier and against the nonce that the session kept.
pub open spec fn callback_started(
    flow: FlowStateView,
    state: Seq<char>,
    error: Option<Seq<char>>,
    error_description: Option<Seq<char>>,
    code: Seq<char>,
) -> Result<TokenRequestView, AuthErrorView> {
    match error {
        Some(reported) => Err(
            AuthErrorView::Provider { error: reported, description: error_description },
        ),
        None => if encode_utf8(state) != encode_utf8(flow.state) {
            Err(AuthErrorView::InvalidCsrfToken)
        } else {
            Ok(TokenRequestView { code: code, pkce_verifier: flow.pkce, nonce: flow.nonce })
        },
    }
}

/// The identity that a verified identity token stands for, or why it stands
/// for none. A token without the hash of the access token is turned down,
/// and so is one whose hash is not that of the access token. The display
/// name is the preferred user name, or the subject where there is none. The
/// token itself goes along where `save_id_token` asks for it.
pub open spec fn identity_of(
    save_id_token: bool,
    subject: Seq<char>,
    preferred_username: Option<Seq<char>>,
    hashes: Option<(Seq<char>, Result<Seq<char>, Seq<char>>)>,
    database_location: Option<Seq<char>>,
    keyfile_location: Option<Seq<char>>,
    id_token: Seq<char>,
) -> Result<UserInfoView, AuthErrorView> {
    match hashes {
        None => Err(AuthErrorView::AccessTokenHashMissing),
        Some((claimed, Err(message))) => Err(AuthErrorView::Outside { message }),
        Some((claimed, Ok(computed))) => if encode_utf8(computed) != encode_utf8(claimed) {
            Err(AuthErrorView::InvalidAccessToken)
        } else {
            Ok(
                UserInfoView {
                    id: subject,
                    name: match preferred_username {
                        Some(name) => name,
                        None => subject,
                    },
                    db_location: database_location,
                    keyfile_location: keyfile_location,
                    additional_data: if save_id_token {
                        Some(id_token)
                    } else {
                        None
                    },
                },
            )
        },
    }
}

/// The view of the two hashes.
pub open spec fn hashes_view(hashes: Option<AccessTokenHashes>) -> Option<
    (Seq<char>, Result<Seq<char>, Seq<char>>),
> {
    match hashes {
        None => None,
        Some(pair) => Some(
            (
                pair.claimed@,
                match pair.computed {
                    Ok(computed) => Ok(computed@),
                    Err(message) => Err(message@),
                },
            ),
        ),
    }
}

/// How the callback ends, given what the exchange and the check of the
/// identity token gave.
pub open spec fn callback_completed(save_id_token: bool, outcome: TokenOutcome) -> Result<
    UserInfoView,
    AuthErrorView,
> {
    match outcome {
        TokenOutcome::ExchangeFailed { message } => Err(AuthErrorView::Outside { message: message@ }),
        TokenOutcome::NoIdToken => Err(AuthErrorView::NoIdToken),
        TokenOutcome::ClaimsRejected { message } => Err(AuthErrorView::Outside { message: message@ }),
        TokenOutcome::Verified(claims) => identity_of(
            save_id_token,
            claims.subject@,
            opt_view(claims.preferred_username),
            hashes_view(claims.access_token_hash),
            opt_view(claims.database_location),
            opt_view(claims.keyfile_location),
            claims.id_token@,
        ),
    }
}

/// What to ask of the provider's end-of-session endpoint.
#[derive(Debug)]
pub struct LogoutRequest {
    pub endpoint: String,
    pub post_logout_redirect_uri: String,
    pub client_id: String,
    pub id_token_hint: Option<String>,
}

/// What a `LogoutRequest` holds, as mathematical values.
pub struct LogoutRequestView {
    pub endpoint: Seq<char>,
    pub post_logout_redirect_uri: Seq<char>,
    pub client_id: Seq<char>,
    pub id_token_hint: Option<Seq<char>>,
}

impl View for LogoutRequest {
    type V = LogoutRequestView;

    open spec fn view(&self) -> LogoutRequestView {
        LogoutRequestView {
            endpoint: self.endpoint@,
            post_logout_redirect_uri: self.post_logout_redirect_uri@,
            client_id: self.client_id@,
            id_token_hint: opt_view(self.id_token_hint),
        }
    }
}

/// The backend that sends users to an identity provider and takes them back
/// with a code.
pub struct Oidc {
    pub config: crate::config::oidc::Oidc,
}

impl Oidc {
    /// The backend with its part of `config`.
    pub fn new(config: &Config) -> (backend: Self)
        ensures
            backend.config@ == config.oidc@,
    {
        Oidc { config: config.oidc.clone() }
    }

    /// The address that the provider sends the browser back to, for a
    /// broker that is reached at `host`.
    pub fn redirect_uri(&self, host: &str) -> (uri: String)
        ensures
            uri@ == host@ + ROUTE_CALLBACK_USER_AUTH@,
    {
        concat(host, ROUTE_CALLBACK_USER_AUTH)
    }

    /// The first leg of the login: the client is sent to the provider, and
    /// the secrets that went into the address stay behind as the state of the
    /// login.
    pub fn get_login_type(&self, request: AuthorizationRequest) -> (login: LoginType)
        ensures
            login@ == (LoginTypeView::Redirect {
                url: request.url@,
                state: FlowStateView {
                    state: request.csrf_token@,
                    nonce: request.nonce@,
                    pkce: request.pkce_verifier@,
                },
            }),
    {
        LoginType::Redirect {
            url: request.url,
            state: FlowState {
                state: request.csrf_token,
                nonce: request.nonce,
                pkce: request.pkce_verifier,
            },
        }
    }

    /// What to ask of the provider to end the session of `user_info`: the
    /// browser is to come back to `host`, and the identity token that the
    /// login kept goes along as a hint. A provider without an end-of-session
    /// endpoint cannot be asked.
    pub fn get_logout_type(
        &self,
        user_info: &UserInfo,
        host: &str,
        end_session_endpoint: Option<String>,
    ) -> (r: Result<LogoutRequest, AuthError>)
        ensures
            match r {
                Ok(request) => end_session_endpoint is Some && request@ == (LogoutRequestView {
                    endpoint: end_session_endpoint->Some_0@,
                    post_logout_redirect_uri: host@,
                    client_id: self.config.client_id@,
                    id_token_hint: user_info@.additional_data,
                }),
                Err(e) => end_session_endpoint is None && e@ == AuthErrorView::NoSessionEndpoint,
            },
    {
        let endpoint = match end_session_endpoint {
            Some(endpoint) => endpoint,
            None => return Err(AuthError::NoSessionEndpoint),
        };
        Ok(
            LogoutRequest {
                endpoint,
                post_logout_redirect_uri: host.to_owned(),
                client_id: self.config.client_id.clone(),
                id_token_hint: clone_opt(&user_info.additional_data),
            },
        )
    }

    /// The second leg, before the provider is asked: decides from the state
    /// that the session kept and from what came back with the browser
    /// whether the code is to be exchanged. The anti-forgery tokens are
    /// compared in constant time.
    pub fn callback_start(&self, from_session: &FlowState, params: &OidcParams) -> (r: Result<
        TokenRequest,
        AuthError,
    >)
        ensures
            match r {
                Ok(request) => Ok::<TokenRequestView, AuthErrorView>(request@),
                Err(e) => Err::<TokenRequestView, AuthErrorView>(e@),
            } == callback_started(
                from_session@,
                params.state@,
                opt_view(params.error),
                opt_view(params.error_description),
                params.code@,
            ),
    {
        match &params.error {
            Some(reported) => {
                return Err(
                    AuthError::Provider {
                        error: reported.clone(),
                        description: clone_opt(&params.error_description),
                    },
                );
            },
            None => {},
        }
        if !constant_time_eq::constant_time_eq(
            params.state.as_str().as_bytes(),
            from_session.state.as_str().as_bytes(),
        ) {
            return Err(AuthError::InvalidCsrfToken);
        }
        Ok(
            TokenRequest {
                code: params.code.clone(),
                pkce_verifier: from_session.pkce.clone(),
                nonce: from_session.nonce.clone(),
            },
        )
    }

    /// The second leg, after the provider was asked: turns what the
    /// exchange and the check of the identity token gave into an identity, or
    /// into the reason why there is none. The two hashes of the access token
    /// are compared in constant time.
    pub fn callback_complete(&self, outcome: TokenOutcome) -> (r: Result<UserInfo, AuthError>)
        ensures
            login_view(r) == callback_completed(self.config.save_id_token, outcome),
    {
        let claims = match outcome {
            TokenOutcome::ExchangeFailed { message } => return Err(AuthError::Outside { message }),
            TokenOutcome::NoIdToken => return Err(AuthError::NoIdToken),
            TokenOutcome::ClaimsRejected { message } => return Err(AuthError::Outside { message }),
            TokenOutcome::Verified(claims) => claims,
        };
        match claims.access_token_hash {
            None => return Err(AuthError::AccessTokenHashMissing),
            Some(hashes) => {
                let computed = match hashes.computed {
                    Ok(computed) => computed,
                    Err(message) => return Err(AuthError::Outside { message }),
                };
                if !constant_time_eq::constant_time_eq(
                    computed.as_str().as_bytes(),
                    hashes.claimed.as_str().as_bytes(),
                ) {
                    return Err(AuthError::InvalidAccessToken);
                }
            },
        }
        let id = claims.subject;
        let name = match claims.preferred_username {
            None => id.clone(),
            Some(name) => name,
        };
        let additional_data = if self.config.save_id_token {
            Some(claims.id_token)
        } else {
            None
        };
        Ok(
            UserInfo {
                id,
                name,
                db_location: claims.database_location,
                keyfile_location: claims.keyfile_location,
                additional_data,
            },
        )
    }
}

/// A callback whose anti-forgery token is not, byte for byte, the one that
/// the session kept never gets as far as the exchange: it fails as an
/// invalid token, unless the provider reported an error of its own.
pub proof fn lemma_tampered_state_fails(
    flow: FlowStateView,
    state: Seq<char>,
    error: Option<Seq<char>>,
    error_description: Option<Seq<char>>,
    code: Seq<char>,
)
    requires
        state != flow.state,
    ensures
        callback_started(flow, state, error, error_description, code) is Err,
        error is None ==> callback_started(flow, state, error, error_description, code) == Err::<
            TokenRequestView,
            AuthErrorView,
        >(AuthErrorView::InvalidCsrfToken),
{
    if encode_utf8(state) == encode_utf8(flow.state) {
        vstd::utf8::encode_utf8_decode_utf8(state);
        vstd::utf8::encode_utf8_decode_utf8(flow.state);
    }
}

} // verus!
