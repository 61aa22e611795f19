//! The guard in front of every route, and what a login form carries.

use vstd::prelude::*;
use vstd::utf8::encode_utf8;
use rand::distributions::Alphanumeric;
use rand::distributions::DistString;
use crate::server::route::API_PATH;
use crate::auth_backend::LoginType;
use crate::auth_backend::LoginTypeView;
use crate::session::AuthSession;
use crate::session::Session;
use crate::session::SessionView;
use crate::session::Stored;
use crate::text::concat;
use crate::text::is_prefix;
use crate::text::opt_view;
use crate::text::starts_with;
use crate::text::str_eq;

verus! {

/// Session key of the identity.
pub const SESSION_KEY_USER: &'static str = "user";

/// Session key of the anti-forgery token.
pub const SESSION_KEY_CSRF: &'static str = "csrf";

/// Request header that echoes the anti-forgery token.
pub const CSRF_HEADER: &'static str = "X-CSRF-Token";

/// Route of the login form, below the interface's prefix.
pub const ROUTE_USER_LOGIN: &'static str = "/user_login";

/// Route of the entry icons, below the interface's prefix.
pub const ROUTE_ICON: &'static str = "/icon";

/// `constant_time_eq::constant_time_eq`: whether the two byte strings are
/// equal, found out without stopping at the first difference.
pub assume_specification[ constant_time_eq::constant_time_eq ](a: &[u8], b: &[u8]) -> (r: bool)
    ensures
        r == (a@ == b@),
;

/// Whether `c` is one of the 62 characters that tokens are drawn from.
pub open spec fn is_token_char(c: char) -> bool {
    ('0' <= c && c <= '9') || ('A' <= c && c <= 'Z') || ('a' <= c && c <= 'z')
}

/// Whether `s` has the shape of a token of `length` characters.
pub open spec fn is_token(s: Seq<char>, length: nat) -> bool {
    s.len() == length && forall|i: int| 0 <= i < s.len() ==> is_token_char(#[trigger] s[i])
}

/// A fresh random token: `rand`'s `Alphanumeric.sample_string` on the
/// thread-local generator. Every outcome has `length` characters, each a digit
/// or an ASCII letter; which ones is left to chance.
#[verifier::external_body]
pub fn gen_token(length: usize) -> (token: String)
    ensures
        is_token(token@, length as nat),
{
    Alphanumeric.sample_string(&mut rand::thread_rng(), length)
}

/// Name and password for the authentication backend.
#[derive(Debug)]
pub struct UserLogin {
    pub username: String,
    pub password: String,
}

/// Name and password for the vault's backend.
#[derive(Debug)]
pub struct BackendLogin {
    pub username: String,
    pub password: String,
}

/// What opens the vault: a password, the bytes of a key file, or both.
#[derive(Debug)]
pub struct DbLogin {
    pub password: Option<String>,
    pub key: Option<Vec<u8>>,
}

impl DbLogin {
    /// The login that a form with the fields `password` and `key` stands
    /// for: an empty field counts as not given, and the key is taken as the
    /// bytes of its text.
    pub fn from_form(password: String, key: String) -> (login: Self)
        ensures
            opt_view(login.password) == (if password@.len() == 0 {
                None
            } else {
                Some(password@)
            }),
            (login.key is None) == (key@.len() == 0),
            login.key matches Some(bytes) ==> bytes@ == encode_utf8(key@),
    {
        let password = if password.as_str().is_empty() {
            None
        } else {
            Some(password)
        };
        let key = if key.as_str().is_empty() {
            None
        } else {
            Some(key.as_str().as_bytes_vec())
        };
        DbLogin { password, key }
    }
}

/// The session once the client was told to log in by way of `login`: a
/// redirect leaves its state in the session for the callback to find; the
/// other ways leave nothing.
pub open spec fn login_begun(session: SessionView, login: LoginTypeView) -> SessionView {
    match login {
        LoginTypeView::Redirect { url, state } => SessionView {
            auth_state: Stored::Present(state),
            ..session
        },
        _ => session,
    }
}

/// Notes in the session what the way to log in needs to find there later,
/// and hands the way to log in on to the client.
pub fn get_login_type(session: &mut Session, login: LoginType) -> (told: LoginType)
    ensures
        told@ == login@,
        final(session)@ == login_begun(old(session)@, login@),
{
    match &login {
        LoginType::Redirect { url, state } => {
            session.auth_state = Stored::Present(state.clone());
        },
        _ => {},
    }
    login
}

/// What the guard does with a request.
#[derive(Debug, Clone, Copy, PartialEq, Eq, Structural)]
pub enum Access {
    /// The request goes on to its handler.
    Forward,
    /// Nobody is logged in: the answer is "unauthorized", with the way to
    /// log in.
    Unauthorized,
    /// The anti-forgery token is missing or wrong: the answer is
    /// "forbidden".
    Forbidden,
    /// The session cannot be read: the answer is a failure of the server,
    /// not a word on who is logged in.
    Unavailable,
}

/// Whether `path` lies below the interface's prefix.
pub open spec fn is_api_route(path: Seq<char>) -> bool {
    is_prefix(API_PATH@ + "/"@, path)
}

/// Whether `path` is the route of the login form.
pub open spec fn is_login_route(path: Seq<char>) -> bool {
    path == API_PATH@ + ROUTE_USER_LOGIN@
}

/// Whether `path` lies below the route of the entry icons.
pub open spec fn is_icon_route(path: Seq<char>) -> bool {
    is_prefix(API_PATH@ + ROUTE_ICON@ + "/"@, path)
}

/// Whether the request's header carries, byte for byte, the token that the
/// session holds.
pub open spec fn csrf_ok(session: SessionView, header: Option<Seq<u8>>) -> bool {
    session.csrf matches Stored::Present(token) && header matches Some(sent) && sent
        == encode_utf8(token)
}

/// The guard's rule. What lies outside the interface goes on. Without an
/// identity, every route of the interface but the login form is refused as
/// unauthorized. With one, every route of the interface but the icons needs
/// the anti-forgery token and is forbidden without it. Where the identity or
/// the token cannot be read, the same routes are answered as a failure of the
/// server: a broken session store does not pass for a logout.
pub open spec fn access(session: SessionView, path: Seq<char>, header: Option<Seq<u8>>) -> Access {
    if !is_api_route(path) {
        Access::Forward
    } else {
        match session.user {
            Stored::Absent => if is_login_route(path) {
                Access::Forward
            } else {
                Access::Unauthorized
            },
            Stored::Unreadable => if is_login_route(path) {
                Access::Forward
            } else {
                Access::Unavailable
            },
            Stored::Present(_) => if is_icon_route(path) {
                Access::Forward
            } else if session.csrf is Unreadable {
                Access::Unavailable
            } else if csrf_ok(session, header) {
                Access::Forward
            } else {
                Access::Forbidden
            },
        }
    }
}

/// The view of an optional header value.
pub open spec fn header_view(header: Option<&[u8]>) -> Option<Seq<u8>> {
    match header {
        Some(sent) => Some(sent@),
        None => None,
    }
}

/// A request of a logged-in user to a route of the interface other than the
/// icons is forbidden whenever its token header is missing or differs from
/// the session's token, and also where the session holds no token at all.
pub proof fn lemma_csrf_rejection(session: SessionView, path: Seq<char>, header: Option<Seq<u8>>)
    requires
        session.user is Present,
        !(session.csrf is Unreadable),
        is_api_route(path),
        !is_icon_route(path),
        header is None || session.csrf is Absent || header->Some_0 != encode_utf8(
            session.csrf->Present_0,
        ),
    ensures
        access(session, path, header) == Access::Forbidden,
{
}

/// A request that is forwarded to a route of the interface other than the
/// login form and the icons comes from a logged-in user and carries that
/// user's token.
pub proof fn lemma_forwarded_is_authentic(
    session: SessionView,
    path: Seq<char>,
    header: Option<Seq<u8>>,
)
    requires
        access(session, path, header) == Access::Forward,
        is_api_route(path),
        !is_login_route(path),
        !is_icon_route(path),
    ensures
        session.user is Present,
        csrf_ok(session, header),
{
}

/// A request without identity to a route of the interface other than the
/// login form is refused as unauthorized, whatever else it carries: it does
/// not go on to a handler.
pub proof fn lemma_unauthenticated_refused(
    session: SessionView,
    path: Seq<char>,
    header: Option<Seq<u8>>,
)
    requires
        session.user is Absent,
        is_api_route(path),
        !is_login_route(path),
    ensures
        access(session, path, header) == Access::Unauthorized,
{
}

/// Whether the request's header carries the session's anti-forgery token.
/// The comparison takes the same time wherever the two differ.
pub fn csrf_matches(session: &Session, header: Option<&[u8]>) -> (r: bool)
    ensures
        r == csrf_ok(session@, header_view(header)),
{
    match &session.csrf {
        Stored::Present(token) => match header {
            Some(sent) => constant_time_eq::constant_time_eq(token.as_str().as_bytes(), sent),
            None => false,
        },
        _ => false,
    }
}

/// The guard, to be put in front of a service.
pub struct CheckAuth;

impl CheckAuth {
    /// The guard in front of `service`.
    pub fn new_transform<S>(&self, service: S) -> (guarded: CheckAuthMiddleware<S>)
        ensures
            guarded.service == service,
    {
        CheckAuthMiddleware { service }
    }
}

/// A service behind the guard.
pub struct CheckAuthMiddleware<S> {
    pub service: S,
}

impl<S> CheckAuthMiddleware<S> {
    /// What becomes of a request for `path` that came with `session` and the
    /// token header `header`. Only a request that is forwarded may reach the
    /// service.
    pub fn call(&self, session: &Session, path: &str, header: Option<&[u8]>) -> (decision: Access)
        ensures
            decision == access(session@, path@, header_view(header)),
    {
        let api = concat(API_PATH, "/");
        if !starts_with(path, api.as_str()) {
            return Access::Forward;
        }
        match &session.user {
            Stored::Present(_) => {
                let icons = concat(concat(API_PATH, ROUTE_ICON).as_str(), "/");
                if starts_with(path, icons.as_str()) {
                    return Access::Forward;
                }
                match &session.csrf {
                    Stored::Unreadable => Access::Unavailable,
                    _ => if csrf_matches(session, header) {
                        Access::Forward
                    } else {
                        Access::Forbidden
                    },
                }
            },
            missing => {
                let login = concat(API_PATH, ROUTE_USER_LOGIN);
                if str_eq(path, login.as_str()) {
                    Access::Forward
                } else {
                    match missing {
                        Stored::Unreadable => Access::Unavailable,
                        _ => Access::Unauthorized,
                    }
                }
            },
        }
    }
}

} // verus!
