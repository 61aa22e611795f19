//! The handlers of login, logout and vault opening, as far as they decide.

use vstd::prelude::*;
use crate::auth::is_token;
use crate::auth_backend::login_view;
use crate::auth_backend::oidc::FlowState;
use crate::auth_backend::oidc::FlowStateView;
use crate::auth_backend::AuthError;
use crate::auth_backend::AuthErrorView;
use crate::auth_backend::LogoutType;
use crate::auth_backend::LogoutTypeView;
use crate::auth_backend::UserInfo;
use crate::auth_backend::UserInfoView;
use crate::config::config::Config;
use crate::db_backend::Backend;
use crate::db_backend::DbBackend;
use crate::keepass::keepass::KeePass;
use crate::keepass::db_cache::DbCache;
use crate::keepass::encrypted::fits;
use crate::keepass::encrypted::sealed;
use crate::keepass::encrypted::Encrypted;
use crate::keepass::encrypted::EncryptedView;
use crate::keepass::encrypted::LENGTH_IV;
use crate::keepass::encrypted::NONCE_LENGTH;
use crate::keepass::encrypted::TAG_LENGTH;
use crate::keepass::key::KeyStoreError;
use crate::keepass::key::SecretKey;
use crate::keepass::key::SecretKeyView;
use crate::keepass::key::ID_LENGTH;
use crate::keepass::key::KEY_LENGTH;
use crate::server::route::reply;
use crate::server::route::reply_ok;
use crate::server::route::util::_close_db;
use crate::server::route::util::check_user_session;
use crate::server::route::util::closed;
use crate::server::route::util::logged_in;
use crate::server::route::util::session_refusal;
use crate::server::route::util::set_user_session;
use crate::server::route::util::fetched;
use crate::server::route::util::identity;
use crate::server::route::util::key_view;
use crate::server::route::util::note_key;
use crate::server::route::util::open_checked;
use crate::server::route::util::retrieve_key;
use crate::server::route::util::db_is_open_with;
use crate::server::route::util::KeyFetchError;
use crate::server::route::util::CSRF_TOKEN_LENGTH;
use crate::server::route::Reply;
use crate::server::route::ReplyView;
use crate::server::route::Status;
use crate::session::empty_session;
use crate::session::AuthSession;
use crate::session::Session;
use crate::session::SessionView;
use crate::session::Stored;

verus! {

/// What the client needs to know about the session's timing, in whole
/// seconds, and about its user.
#[derive(Debug)]
pub struct Settings {
    pub cn: String,
    pub timeout: u64,
    pub interval: u64,
}

/// What a successful login hands to the client.
#[derive(Debug)]
pub struct SessionData {
    pub csrf_token: String,
    pub settings: Settings,
}

/// What a `SessionData` holds, as mathematical values.
pub struct SessionDataView {
    pub csrf_token: Seq<char>,
    pub cn: Seq<char>,
    pub timeout: u64,
    pub interval: u64,
}

impl View for SessionData {
    type V = SessionDataView;

    open spec fn view(&self) -> SessionDataView {
        SessionDataView {
            csrf_token: self.csrf_token@,
            cn: self.settings.cn@,
            timeout: self.settings.timeout,
            interval: self.settings.interval,
        }
    }
}

/// What a login of `user` hands to the client under `config`, with the
/// anti-forgery token `token`.
pub open spec fn session_data(config: Config, user: UserInfoView, token: Seq<char>) -> SessionDataView {
    SessionDataView {
        csrf_token: token,
        cn: user.name,
        timeout: config.db_session_timeout / 1000,
        interval: config.auth_check_interval / 1000,
    }
}

/// The answer to the question whether identity and vault are there.
#[derive(Debug, Clone, Copy, PartialEq, Eq, Structural)]
pub struct Probe {
    pub status: Status,
    pub success: bool,
    pub backend: bool,
    pub db: bool,
}

/// The answer to the question, given whether the vault is open. Every
/// backend counts as logged in; the status is a success where the vault is
/// open too. The flag that clients read as success stays off.
pub open spec fn probed(open: bool) -> Probe {
    Probe {
        status: if open {
            Status::Success
        } else {
            Status::Unauthorized
        },
        success: false,
        backend: true,
        db: open,
    }
}

/// Tells whether the vault's backend has let the broker in and whether the
/// vault is open, given what fetching the key came to. The vault counts as
/// open by the rule of `open_checked`.
pub fn authenticated_with(
    session: &mut Session,
    config: &Config,
    db_cache: &mut DbCache,
    db_backend: &Backend,
    now: u64,
    key: Result<SecretKey, KeyFetchError>,
) -> (probe: Probe)
    requires
        now + config.db_session_timeout <= u64::MAX,
    ensures
        probe == probed(probe.db),
        open_checked(
            old(session)@,
            old(db_cache)@,
            now,
            config.db_session_timeout,
            key_view(key),
            (final(session)@, final(db_cache)@),
            probe.db,
        ),
{
    let backend = db_backend.authenticated();
    let db = db_is_open_with(session, config, db_cache, now, key);
    let status = if backend && db {
        Status::Success
    } else {
        Status::Unauthorized
    };
    Probe { status, success: false, backend, db }
}

/// Tells whether the vault's backend has let the broker in and whether the
/// vault is open, each by itself. The status is a success only where both
/// hold.
///
/// What the keyring says to the key decides whether the vault is open, by
/// the rule of `open_checked`; what it can say is what `fetched` admits.
pub fn authenticated(
    session: &mut Session,
    config: &Config,
    db_cache: &mut DbCache,
    db_backend: &Backend,
    now: u64,
) -> (probe: Probe)
    requires
        now + config.db_session_timeout <= u64::MAX,
    ensures
        probe == probed(probe.db),
        exists|key: Result<SecretKeyView, KeyFetchError>|
            fetched(old(session)@, config.db_session_timeout, key) && #[trigger] open_checked(
                old(session)@,
                old(db_cache)@,
                now,
                config.db_session_timeout,
                key,
                (final(session)@, final(db_cache)@),
                probe.db,
            ),
{
    let key = retrieve_key(config, session);
    authenticated_with(session, config, db_cache, db_backend, now, key)
}

/// The answer to a login that the backend turned down, whatever its reason.
pub open spec fn login_refusal() -> ReplyView {
    reply(Status::Unauthorized, false, "username or password incorrect"@)
}

/// The view of a login's answer.
pub open spec fn data_view(r: Result<SessionData, Reply>) -> Result<SessionDataView, ReplyView> {
    match r {
        Ok(data) => Ok(data@),
        Err(refusal) => Err(refusal@),
    }
}

/// Ends a login with name and password, to which the backend said
/// `outcome`.
///
/// A session that is unreadable or taken is refused before anything else. A
/// login that the backend turned down is answered the same way whatever the
/// reason, and leaves the session alone. A login that it accepted puts the
/// identity into the session beside a fresh anti-forgery token, which the
/// client gets with its settings.
pub fn user_login(session: &mut Session, config: &Config, outcome: Result<UserInfo, AuthError>) -> (r:
    Result<SessionData, Reply>)
    ensures
        session_refusal(old(session)@) matches Some(refusal) ==> data_view(r) == Err::<
            SessionDataView,
            ReplyView,
        >(refusal) && final(session)@ == old(session)@,
        session_refusal(old(session)@) is None && outcome is Err ==> data_view(r) == Err::<
            SessionDataView,
            ReplyView,
        >(login_refusal()) && final(session)@ == old(session)@,
        session_refusal(old(session)@) is None && outcome is Ok ==> r is Ok && is_token(
            r->Ok_0@.csrf_token,
            CSRF_TOKEN_LENGTH as nat,
        ) && r->Ok_0@ == session_data(*config, outcome->Ok_0@, r->Ok_0@.csrf_token)
            && final(session)@ == logged_in(old(session)@, outcome->Ok_0@, r->Ok_0@.csrf_token),
{
    match check_user_session(session) {
        Ok(()) => {},
        Err(refusal) => return Err(refusal),
    }
    let user_info = match outcome {
        Ok(user_info) => user_info,
        Err(_) => {
            return Err(Reply::new(Status::Unauthorized, false, "username or password incorrect"));
        },
    };
    let csrf_token = set_user_session(session, &user_info);
    Ok(
        SessionData {
            csrf_token,
            settings: Settings {
                cn: user_info.name,
                timeout: config.db_session_timeout / 1000,
                interval: config.auth_check_interval / 1000,
            },
        },
    )
}

/// Answers a login to the vault's backend. No backend asks for one: each
/// counts as logged in from the start.
pub fn backend_login(db_backend: &Backend) -> (r: Reply)
    ensures
        r@ == reply(Status::BadRequest, false, "already logged into backend"@),
{
    if db_backend.authenticated() {
        return Reply::new(Status::BadRequest, false, "already logged into backend");
    }
    Reply::ok()
}

/// The answer to the opening of a vault that is open already.
pub open spec fn already_open() -> ReplyView {
    reply(Status::BadRequest, false, "database already open"@)
}

/// Begins the opening of a vault, given what fetching the key came to: a
/// vault that is open already, by the rule of `open_checked`, is not opened
/// again.
pub fn db_login_begin_with(
    session: &mut Session,
    config: &Config,
    db_cache: &mut DbCache,
    now: u64,
    key: Result<SecretKey, KeyFetchError>,
) -> (r: Result<(), Reply>)
    requires
        now + config.db_session_timeout <= u64::MAX,
    ensures
        r matches Err(refusal) ==> refusal@ == already_open(),
        open_checked(
            old(session)@,
            old(db_cache)@,
            now,
            config.db_session_timeout,
            key_view(key),
            (final(session)@, final(db_cache)@),
            r is Err,
        ),
{
    if db_is_open_with(session, config, db_cache, now, key) {
        return Err(Reply::new(Status::BadRequest, false, "database already open"));
    }
    Ok(())
}

/// Begins the opening of a vault: a vault that is open already is not
/// opened again.
///
/// What the keyring says to the key decides whether the vault is open, by
/// the rule of `open_checked`; what it can say is what `fetched` admits.
pub fn db_login_begin(session: &mut Session, config: &Config, db_cache: &mut DbCache, now: u64) -> (r:
    Result<(), Reply>)
    requires
        now + config.db_session_timeout <= u64::MAX,
    ensures
        r matches Err(refusal) ==> refusal@ == already_open(),
        exists|key: Result<SecretKeyView, KeyFetchError>|
            fetched(old(session)@, config.db_session_timeout, key) && #[trigger] open_checked(
                old(session)@,
                old(db_cache)@,
                now,
                config.db_session_timeout,
                key,
                (final(session)@, final(db_cache)@),
                r is Err,
            ),
{
    let key = retrieve_key(config, session);
    db_login_begin_with(session, config, db_cache, now, key)
}

/// What the vault's backend and the vault format made of the request to
/// open the vault.
#[derive(Debug)]
pub enum VaultRead {
    /// The vault could not be read or not be opened with what the user
    /// gave.
    Failed,
    /// The open vault could not be put into bytes.
    Unserializable,
    /// The open vault, in bytes.
    Loaded(Vec<u8>),
}

/// The answer where the blob has no identity to be kept for.
pub open spec fn no_place() -> ReplyView {
    reply(Status::InternalServerError, true, "failed to store db"@)
}

/// The answer where the keyring did not take the key.
pub open spec fn key_refused() -> ReplyView {
    reply(Status::InternalServerError, true, "failed to store key"@)
}

/// What the opening of a vault comes to once the vault is encrypted into
/// `blob` and the keyring was asked to take the key `key_id` and said
/// `stored`. Key and blob are kept together or not at all: where the keyring
/// took the key, the session names it and the cache holds the blob for the
/// session's identity; where it refused, nothing is kept. A session without
/// identity has no place for the blob: nothing is kept, whatever the keyring
/// said.
pub open spec fn login_finished(
    session: SessionView,
    cache: Map<Seq<char>, EncryptedView>,
    key_id: Seq<char>,
    blob: EncryptedView,
    stored: Result<(), KeyStoreError>,
) -> (SessionView, Map<Seq<char>, EncryptedView>, ReplyView) {
    match identity(session) {
        None => (session, cache, no_place()),
        Some(id) => match stored {
            Ok(_) => (
                SessionView { key_id: Stored::Present(key_id), ..session },
                cache.insert(id, blob),
                reply_ok(),
            ),
            Err(_) => (session, cache, key_refused()),
        },
    }
}

/// Ends the opening of a vault whose blob is `enc_db`, given what the
/// keyring said to the key `key_id`.
pub fn db_login_finish(
    session: &mut Session,
    db_cache: &mut DbCache,
    key_id: &str,
    enc_db: Encrypted,
    stored: Result<(), KeyStoreError>,
) -> (r: Reply)
    ensures
        (final(session)@, final(db_cache)@, r@) == login_finished(
            old(session)@,
            old(db_cache)@,
            key_id@,
            enc_db@,
            stored,
        ),
{
    let user = match &session.user {
        Stored::Present(user) => user.id.clone(),
        _ => {
            return Reply::new(Status::InternalServerError, true, "failed to store db");
        },
    };
    match note_key(session, key_id, stored) {
        Ok(()) => {},
        Err(_) => {
            return Reply::new(Status::InternalServerError, true, "failed to store key");
        },
    }
    db_cache.store(user.as_str(), enc_db);
    Reply::ok()
}

/// Whether the session and the cache hold the vault `bytes` as opened at
/// `now`: the session names a fresh key, and the cache holds, for the
/// session's identity, the vault sealed under some key of the right length
/// and due to expire one timeout after `now`.
pub open spec fn vault_opened(
    before: (SessionView, Map<Seq<char>, EncryptedView>),
    after: (SessionView, Map<Seq<char>, EncryptedView>),
    bytes: Seq<u8>,
    expiry: int,
) -> bool {
    &&& identity(before.0) matches Some(id)
    &&& after.0.key_id matches Stored::Present(key_id) && is_token(key_id, ID_LENGTH as nat)
        && after.0 == (SessionView { key_id: Stored::Present(key_id), ..before.0 })
    &&& after.1.dom().contains(id) && after.1 == before.1.insert(id, after.1[id])
    &&& after.1[id].expiry == expiry
    &&& after.1[id].iv.len() == NONCE_LENGTH
    &&& after.1[id].data.len() == bytes.len() + LENGTH_IV + TAG_LENGTH
    &&& exists|material: Seq<u8>|
        material.len() == KEY_LENGTH && after.1[id].data == #[trigger] sealed(
            material,
            after.1[id].iv,
            Seq::<u8>::empty(),
            bytes,
        )
}

/// Ends the opening of a vault: encrypts the vault under a fresh key,
/// registers the key and caches the blob for the session's identity.
///
/// A vault that did not open is answered as unauthorized, one that cannot be
/// encrypted as the server's failure, and so is a session without identity,
/// for which the keyring is not asked; none of these touches session or
/// cache. A vault that fits the cipher is kept, key and blob together, by
/// the rule of `login_finished`, unless the keyring refuses the key: then
/// nothing is kept.
pub fn db_login(
    session: &mut Session,
    config: &Config,
    db_cache: &mut DbCache,
    vault: VaultRead,
    now: u64,
) -> (r: Reply)
    requires
        now + config.db_session_timeout <= u64::MAX,
    ensures
        vault is Failed ==> r@ == reply(
            Status::Unauthorized,
            false,
            "keepass db initialization failed"@,
        ),
        vault is Unserializable || (vault matches VaultRead::Loaded(bytes) && !fits(
            bytes@.len(),
            0,
        )) ==> r@ == reply(Status::InternalServerError, false, "failed to encrypt database"@),
        vault matches VaultRead::Loaded(bytes) && fits(bytes@.len(), 0) && identity(
            old(session)@,
        ) is None ==> r@ == no_place(),
        vault matches VaultRead::Loaded(bytes) && fits(bytes@.len(), 0) && identity(
            old(session)@,
        ) is Some ==> r@ == reply_ok() || r@ == key_refused(),
        r@ != reply_ok() ==> final(session)@ == old(session)@ && final(db_cache)@ == old(db_cache)@,
        r@ == reply_ok() ==> vault is Loaded && vault_opened(
            (old(session)@, old(db_cache)@),
            (final(session)@, final(db_cache)@),
            vault->Loaded_0@,
            now + config.db_session_timeout,
        ),
{
    let bytes = match vault {
        VaultRead::Failed => {
            return Reply::new(Status::Unauthorized, false, "keepass db initialization failed");
        },
        VaultRead::Unserializable => {
            return Reply::new(Status::InternalServerError, false, "failed to encrypt database");
        },
        VaultRead::Loaded(bytes) => bytes,
    };
    let ghost plain = bytes@;
    let (key, enc_db) = match KeePass::to_enc(config, bytes, now) {
        Ok(pair) => pair,
        Err(_) => {
            return Reply::new(Status::InternalServerError, false, "failed to encrypt database");
        },
    };
    match &session.user {
        Stored::Present(_) => {},
        _ => {
            return Reply::new(Status::InternalServerError, true, "failed to store db");
        },
    }
    let ghost material = key@.data;
    let ghost blob = enc_db@;
    assert(blob.data == sealed(material, blob.iv, Seq::<u8>::empty(), plain));
    let mut key = key;
    let stored = key.store(config.db_session_timeout);
    db_login_finish(session, db_cache, key.id().as_str(), enc_db, stored)
}

/// What the request to close the vault leaves behind, given what the
/// keyring said to the attempt to revoke the key.
pub open spec fn close_db_done(
    session: SessionView,
    cache: Map<Seq<char>, EncryptedView>,
    answer: Result<(), KeyStoreError>,
) -> (SessionView, Map<Seq<char>, EncryptedView>, ReplyView) {
    let after = closed(session, cache, answer);
    (
        after.0,
        after.1,
        match after.2 {
            Ok(_) => reply_ok(),
            Err(failure) => failure,
        },
    )
}

/// Closes the vault of the session's identity.
pub fn close_db(session: &mut Session, config: &Config, db_cache: &mut DbCache) -> (r: Reply)
    ensures
        exists|answer: Result<(), KeyStoreError>|
            (final(session)@, final(db_cache)@, r@) == #[trigger] close_db_done(
                old(session)@,
                old(db_cache)@,
                answer,
            ),
{
    let ghost before = session@;
    let ghost cache = db_cache@;
    match _close_db(session, config, db_cache) {
        Ok(()) => {
            let r = Reply::ok();
            proof {
                let answer = choose|answer: Result<(), KeyStoreError>|
                    (session@, db_cache@, Ok::<(), ReplyView>(())) == #[trigger] closed(
                        before,
                        cache,
                        answer,
                    );
                assert((session@, db_cache@, r@) == close_db_done(before, cache, answer));
            }
            r
        },
        Err(failure) => {
            proof {
                let answer = choose|answer: Result<(), KeyStoreError>|
                    (session@, db_cache@, Err::<(), ReplyView>(failure@)) == #[trigger] closed(
                        before,
                        cache,
                        answer,
                    );
                assert((session@, db_cache@, failure@) == close_db_done(before, cache, answer));
            }
            failure
        },
    }
}

/// Closing the vault a second time, or closing one that was never opened,
/// is answered as a success and changes nothing.
pub proof fn lemma_close_db_twice(
    session: SessionView,
    cache: Map<Seq<char>, EncryptedView>,
    first: Result<(), KeyStoreError>,
    second: Result<(), KeyStoreError>,
)
    ensures
        close_db_done(session, cache, first).2 == reply_ok() ==> close_db_done(
            close_db_done(session, cache, first).0,
            close_db_done(session, cache, first).1,
            second,
        ) == (close_db_done(session, cache, first).0, close_db_done(session, cache, first).1, reply_ok()),
        !(session.user is Unreadable) && session.key_id is Absent ==> close_db_done(
            session,
            cache,
            first,
        ).2 == reply_ok(),
{
    crate::server::route::util::lemma_close_is_idempotent(session, cache, first, second);
}

/// The view of a logout's answer.
pub open spec fn logout_view(r: Result<LogoutType, Reply>) -> Result<LogoutTypeView, ReplyView> {
    match r {
        Ok(target) => Ok(target@),
        Err(refusal) => Err(refusal@),
    }
}

/// The view of what the backend said about where to go after a logout.
pub open spec fn target_view(r: Result<LogoutType, AuthError>) -> Result<
    LogoutTypeView,
    AuthErrorView,
> {
    match r {
        Ok(target) => Ok(target@),
        Err(e) => Err(e@),
    }
}

/// What a logout leaves behind, given where the backend sends the user
/// afterwards and what the keyring said to the attempt to revoke the key.
///
/// A session that cannot be read is the server's failure and stays. A
/// session without identity has nothing to log out of: what is left of it is
/// thrown away, and the client goes nowhere. For a session with an identity
/// the backend must name the place to go; then the vault is closed as far as
/// that works, and the session is emptied.
pub open spec fn logged_out(
    session: SessionView,
    cache: Map<Seq<char>, EncryptedView>,
    target: Result<LogoutTypeView, AuthErrorView>,
    answer: Result<(), KeyStoreError>,
) -> (SessionView, Map<Seq<char>, EncryptedView>, Result<LogoutTypeView, ReplyView>) {
    match session.user {
        Stored::Unreadable => (
            session,
            cache,
            Err(reply(Status::InternalServerError, true, "failed to retrieve session"@)),
        ),
        Stored::Absent => (
            empty_session(),
            closed(session, cache, answer).1,
            Ok(LogoutTypeView::Nothing),
        ),
        Stored::Present(_) => match target {
            Err(_) => (
                session,
                cache,
                Err(reply(Status::Unauthorized, false, "failed to retrieve logout type/url"@)),
            ),
            Ok(place) => (empty_session(), closed(session, cache, answer).1, Ok(place)),
        },
    }
}

/// Logs the session's user out: closes the vault as far as that works and
/// empties the session. `target` is what the backend said about where the
/// client goes next.
pub fn logout(
    session: &mut Session,
    config: &Config,
    db_cache: &mut DbCache,
    target: Result<LogoutType, AuthError>,
) -> (r: Result<LogoutType, Reply>)
    ensures
        exists|answer: Result<(), KeyStoreError>|
            (final(session)@, final(db_cache)@, logout_view(r)) == #[trigger] logged_out(
                old(session)@,
                old(db_cache)@,
                target_view(target),
                answer,
            ),
{
    let ghost before = session@;
    let ghost cache = db_cache@;
    let place = match &session.user {
        Stored::Unreadable => {
            let refusal = Reply::new(Status::InternalServerError, true, "failed to retrieve session");
            assert((session@, db_cache@, Err::<LogoutTypeView, ReplyView>(refusal@)) == logged_out(
                before,
                cache,
                target_view(target),
                Ok(()),
            ));
            return Err(refusal);
        },
        Stored::Absent => LogoutType::Nothing,
        Stored::Present(_) => match target {
            Ok(place) => place,
            Err(_) => {
                let refusal = Reply::new(
                    Status::Unauthorized,
                    false,
                    "failed to retrieve logout type/url",
                );
                assert((session@, db_cache@, Err::<LogoutTypeView, ReplyView>(refusal@))
                    == logged_out(before, cache, target_view(target), Ok(())));
                return Err(refusal);
            },
        },
    };
    let closing = _close_db(session, config, db_cache);
    proof {
        let answer = choose|answer: Result<(), KeyStoreError>|
            (session@, db_cache@, crate::server::route::util::reply_view(closing))
                == #[trigger] closed(before, cache, answer);
        assert(db_cache@ == closed(before, cache, answer).1);
        assert((empty_session(), db_cache@, Ok::<LogoutTypeView, ReplyView>(place@)) == logged_out(
            before,
            cache,
            target_view(target),
            answer,
        ));
    }
    session.destroy();
    Ok(place)
}

/// A logout that follows a logout succeeds, sends the client nowhere and
/// changes nothing, whatever the backend and the keyring would say.
pub proof fn lemma_logout_twice(
    session: SessionView,
    cache: Map<Seq<char>, EncryptedView>,
    target: Result<LogoutTypeView, AuthErrorView>,
    first: Result<(), KeyStoreError>,
    again: Result<LogoutTypeView, AuthErrorView>,
    second: Result<(), KeyStoreError>,
)
    ensures
        logged_out(session, cache, target, first).2 is Ok ==> logged_out(
            logged_out(session, cache, target, first).0,
            logged_out(session, cache, target, first).1,
            again,
            second,
        ) == (
            empty_session(),
            logged_out(session, cache, target, first).1,
            Ok::<LogoutTypeView, ReplyView>(LogoutTypeView::Nothing),
        ),
{
}

/// What the page that ends a federated login tells the client.
#[derive(Debug)]
pub struct CallbackPage {
    pub success: bool,
    pub message: Option<String>,
    pub data: Option<SessionData>,
}

/// What a `CallbackPage` holds, as mathematical values.
pub struct CallbackPageView {
    pub success: bool,
    pub message: Option<Seq<char>>,
    pub data: Option<SessionDataView>,
}

impl View for CallbackPage {
    type V = CallbackPageView;

    open spec fn view(&self) -> CallbackPageView {
        CallbackPageView {
            success: self.success,
            message: crate::text::opt_view(self.message),
            data: match self.data {
                Some(data) => Some(data@),
                None => None,
            },
        }
    }
}

/// The page of a federated login that failed for this reason.
pub open spec fn failure_page(message: Seq<char>) -> CallbackPageView {
    CallbackPageView { success: false, message: Some(message), data: None }
}

/// How the handling of a callback begins.
#[derive(Debug)]
pub enum CallbackStart {
    /// The session holds the state of a login in flight: the backend is to
    /// complete it.
    Proceed(FlowState),
    /// The session cannot take a login.
    Refused(Reply),
    /// No login is in flight. The session is gone.
    Failed(CallbackPage),
}

/// What a `CallbackStart` holds, as mathematical values.
pub enum CallbackStartView {
    Proceed(FlowStateView),
    Refused(ReplyView),
    Failed(CallbackPageView),
}

impl View for CallbackStart {
    type V = CallbackStartView;

    open spec fn view(&self) -> CallbackStartView {
        match *self {
            CallbackStart::Proceed(flow) => CallbackStartView::Proceed(flow@),
            CallbackStart::Refused(refusal) => CallbackStartView::Refused(refusal@),
            CallbackStart::Failed(page) => CallbackStartView::Failed(page@),
        }
    }
}

/// How the handling of a callback begins on `session`, and what it leaves
/// of the session. A session that is unreadable or taken is refused and
/// stays. A session without the state of a login in flight is emptied: the
/// callback fails closed. Only a session that is free and holds that state
/// lets the callback proceed.
pub open spec fn callback_started(session: SessionView) -> (SessionView, CallbackStartView) {
    match session_refusal(session) {
        Some(refusal) => (session, CallbackStartView::Refused(refusal)),
        None => match session.auth_state {
            Stored::Present(flow) => (session, CallbackStartView::Proceed(flow)),
            _ => (
                empty_session(),
                CallbackStartView::Failed(failure_page("failed to retrieve session auth state"@)),
            ),
        },
    }
}

/// Begins the handling of a callback from the identity provider.
pub fn callback_begin(session: &mut Session) -> (start: CallbackStart)
    ensures
        (final(session)@, start@) == callback_started(old(session)@),
{
    match check_user_session(session) {
        Ok(()) => {},
        Err(refusal) => return CallbackStart::Refused(refusal),
    }
    match &session.auth_state {
        Stored::Present(flow) => CallbackStart::Proceed(flow.clone()),
        _ => {
            session.destroy();
            CallbackStart::Failed(
                CallbackPage {
                    success: false,
                    message: Some("failed to retrieve session auth state".to_owned()),
                    data: None,
                },
            )
        },
    }
}

/// How the handling of a callback ends, given what the backend made of it
/// and the anti-forgery token minted for a success. A failure empties the
/// session and names its reason. A success puts the identity and the token
/// into the session and takes the state of the login out: it was good for
/// one callback.
pub open spec fn callback_finished(
    config: Config,
    session: SessionView,
    outcome: Result<UserInfoView, AuthErrorView>,
    token: Seq<char>,
) -> (SessionView, CallbackPageView) {
    match outcome {
        Err(e) => (empty_session(), failure_page(e.message())),
        Ok(user) => (
            SessionView { auth_state: Stored::Absent, ..logged_in(session, user, token) },
            CallbackPageView {
                success: true,
                message: None,
                data: Some(session_data(config, user, token)),
            },
        ),
    }
}

/// Ends the handling of a callback to which the backend said `outcome`.
pub fn callback_finish(
    session: &mut Session,
    config: &Config,
    outcome: Result<UserInfo, AuthError>,
) -> (page: CallbackPage)
    ensures
        outcome is Err ==> (final(session)@, page@) == callback_finished(
            *config,
            old(session)@,
            login_view(outcome),
            Seq::<char>::empty(),
        ),
        outcome is Ok ==> page@.data is Some && is_token(
            page@.data->Some_0.csrf_token,
            CSRF_TOKEN_LENGTH as nat,
        ) && (final(session)@, page@) == callback_finished(
            *config,
            old(session)@,
            login_view(outcome),
            page@.data->Some_0.csrf_token,
        ),
{
    let user_info = match outcome {
        Ok(user_info) => user_info,
        Err(e) => {
            session.destroy();
            return CallbackPage { success: false, message: Some(e.message()), data: None };
        },
    };
    let csrf_token = set_user_session(session, &user_info);
    session.auth_state = Stored::Absent;
    CallbackPage {
        success: true,
        message: None,
        data: Some(
            SessionData {
                csrf_token,
                settings: Settings {
                    cn: user_info.name,
                    timeout: config.db_session_timeout / 1000,
                    interval: config.auth_check_interval / 1000,
                },
            },
        ),
    }
}

/// A callback cannot be played twice. Whatever a callback ended in, the
/// session that it leaves never lets another callback proceed; and neither
/// does the session that a failed beginning leaves.
pub proof fn lemma_callback_is_one_shot(
    config: Config,
    session: SessionView,
    outcome: Result<UserInfoView, AuthErrorView>,
    token: Seq<char>,
)
    ensures
        !(callback_started(callback_finished(config, session, outcome, token).0).1 is Proceed),
        callback_started(session).1 is Failed ==> !(callback_started(
            callback_started(session).0,
        ).1 is Proceed),
{
}

} // verus!
