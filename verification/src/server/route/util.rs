//! What the handlers share: the session's identity and key, and the way from
//! the cache to the decrypted vault.

use vstd::prelude::*;
use crate::auth::gen_token;
use crate::auth::is_token;
use crate::auth_backend::UserInfo;
use crate::config::config::Config;
use crate::keepass::db_cache::after_lookup;
use crate::keepass::db_cache::lookup;
use crate::keepass::db_cache::CacheError;
use crate::keepass::db_cache::DbCache;
use crate::keepass::encrypted::fits;
use crate::keepass::encrypted::opens_to;
use crate::keepass::encrypted::sealed;
use crate::keepass::encrypted::NONCE_LENGTH;
use crate::keepass::encrypted::EncryptedView;
use crate::keepass::key::has_nul;
use crate::keepass::key::settle_revocation;
use crate::keepass::key::settled;
use crate::keepass::key::SecretKeyView;
use crate::keepass::key::KeyStoreError;
use crate::keepass::keepass::KeePass;
use crate::keepass::key::SecretBytes;
use crate::keepass::key::SecretKey;
use crate::keepass::key::KEY_LENGTH;
use crate::server::route::reply;
use crate::server::route::Reply;
use crate::server::route::ReplyView;
use crate::server::route::Status;
use crate::session::Session;
use crate::session::SessionView;
use crate::session::Stored;

verus! {

/// Session key of the id of the key that opens the cached vault.
pub const SESSION_KEY_KEY_ID: &'static str = "key_id";

/// Length of an anti-forgery token.
pub const CSRF_TOKEN_LENGTH: usize = 32;

/// The answer to a login on a session that cannot take one: the storage
/// failed, or somebody is logged in already.
pub open spec fn session_refusal(session: SessionView) -> Option<ReplyView> {
    match session.user {
        Stored::Unreadable => Some(
            reply(Status::InternalServerError, false, "failed to retrieve session"@),
        ),
        Stored::Present(_) => Some(reply(Status::BadRequest, false, "already logged in"@)),
        Stored::Absent => None,
    }
}

/// Makes sure that the session is there and that nobody is logged in on it.
pub fn check_user_session(session: &Session) -> (r: Result<(), Reply>)
    ensures
        match r {
            Ok(_) => session_refusal(session@) is None,
            Err(refusal) => session_refusal(session@) == Some(refusal@),
        },
{
    match &session.user {
        Stored::Unreadable => Err(
            Reply::new(Status::InternalServerError, false, "failed to retrieve session"),
        ),
        Stored::Present(_) => Err(Reply::new(Status::BadRequest, false, "already logged in")),
        Stored::Absent => Ok(()),
    }
}

/// The session once `user` has logged in and been given `token`.
pub open spec fn logged_in(
    session: SessionView,
    user: crate::auth_backend::UserInfoView,
    token: Seq<char>,
) -> SessionView {
    SessionView { user: Stored::Present(user), csrf: Stored::Present(token), ..session }
}

/// Puts the identity into the session, beside the anti-forgery token that
/// the client is to echo from now on.
pub fn set_user_session_with(session: &mut Session, user_info: &UserInfo, csrf_token: &str)
    ensures
        final(session)@ == logged_in(old(session)@, user_info@, csrf_token@),
{
    session.user = Stored::Present(user_info.clone());
    session.csrf = Stored::Present(csrf_token.to_owned());
}

/// Puts the identity into the session and mints the anti-forgery token that
/// the client is to echo from now on.
pub fn set_user_session(session: &mut Session, user_info: &UserInfo) -> (csrf_token: String)
    ensures
        is_token(csrf_token@, CSRF_TOKEN_LENGTH as nat),
        final(session)@ == logged_in(old(session)@, user_info@, csrf_token@),
{
    let csrf_token = gen_token(CSRF_TOKEN_LENGTH);
    set_user_session_with(session, user_info, csrf_token.as_str());
    csrf_token
}

/// Why no key came back.
#[derive(Debug, Clone, Copy, PartialEq, Eq, Structural)]
pub enum KeyFetchError {
    /// The session storage failed.
    SessionUnreadable,
    /// The session names no key.
    NoKeyId,
    /// The keyring refused.
    Store(KeyStoreError),
}

/// The view of a fetched key, or of the reason why none came.
pub open spec fn key_view(key: Result<SecretKey, KeyFetchError>) -> Result<
    SecretKeyView,
    KeyFetchError,
> {
    match key {
        Ok(key) => Ok(key@),
        Err(e) => Err(e),
    }
}

/// Whether `key` can be what fetching the session's key came to. A session
/// whose key id cannot be read, or that names no key, gets its own error
/// without the keyring being asked. Where the session names a key, the
/// keyring decides: it refuses, or hands out the key of that id, with the
/// vault's timeout and material of the keyring's length. An id that holds a
/// NUL is always refused.
pub open spec fn fetched(
    session: SessionView,
    timeout: u64,
    key: Result<SecretKeyView, KeyFetchError>,
) -> bool {
    match session.key_id {
        Stored::Unreadable => key == Err::<SecretKeyView, KeyFetchError>(
            KeyFetchError::SessionUnreadable,
        ),
        Stored::Absent => key == Err::<SecretKeyView, KeyFetchError>(KeyFetchError::NoKeyId),
        Stored::Present(id) => match key {
            Ok(found) => found.key_id == id && found.timeout == timeout && found.data.len()
                == KEY_LENGTH && !has_nul(id),
            Err(e) => e is Store,
        },
    }
}

/// Fetches the key that the session names from the keyring, and pushes its
/// expiry the vault's timeout into the future.
///
/// Without a readable key id nothing is asked of the keyring. With one, the
/// keyring decides; a key that comes back is the one that the session names.
pub fn retrieve_key(config: &Config, session: &Session) -> (r: Result<SecretKey, KeyFetchError>)
    ensures
        fetched(session@, config.db_session_timeout, key_view(r)),
{
    match &session.key_id {
        Stored::Unreadable => Err(KeyFetchError::SessionUnreadable),
        Stored::Absent => Err(KeyFetchError::NoKeyId),
        Stored::Present(key_id) => match SecretKey::retrieve(
            key_id.as_str(),
            config.db_session_timeout,
        ) {
            Ok(key) => Ok(key),
            Err(e) => Err(KeyFetchError::Store(e)),
        },
    }
}

/// The session once the keyring was asked to take the key `key_id` and said
/// `stored`: the session names the key that the keyring took, and stays as
/// it was where the keyring refused. The keyring's word is passed on.
pub open spec fn key_noted(
    session: SessionView,
    key_id: Seq<char>,
    stored: Result<(), KeyStoreError>,
) -> (SessionView, Result<(), KeyStoreError>) {
    match stored {
        Ok(_) => (SessionView { key_id: Stored::Present(key_id), ..session }, Ok(())),
        Err(e) => (session, Err(e)),
    }
}

/// Notes in the session the id of a key that the keyring was asked to take,
/// where it took it.
pub fn note_key(session: &mut Session, key_id: &str, stored: Result<(), KeyStoreError>) -> (r:
    Result<(), KeyStoreError>)
    ensures
        (final(session)@, r) == key_noted(old(session)@, key_id@, stored),
{
    match stored {
        Ok(()) => {
            session.key_id = Stored::Present(key_id.to_owned());
            Ok(())
        },
        Err(e) => Err(e),
    }
}

/// Registers `key` in the keyring for the vault's timeout and notes its id
/// in the session. Where the keyring refuses, the session stays as it was;
/// a key whose id holds a NUL is always refused.
pub fn store_key(config: &Config, session: &mut Session, key: SecretKey) -> (r: Result<
    (),
    KeyStoreError,
>)
    ensures
        r is Ok ==> final(session)@ == (SessionView {
            key_id: Stored::Present(key@.key_id),
            ..old(session)@
        }),
        r is Err ==> final(session)@ == old(session)@,
        has_nul(key@.key_id) ==> r is Err,
        exists|stored: Result<(), KeyStoreError>|
            (final(session)@, r) == #[trigger] key_noted(old(session)@, key@.key_id, stored),
{
    let mut key = key;
    let stored = key.store(config.db_session_timeout);
    note_key(session, key.id().as_str(), stored)
}

/// What the session's key comes to once the keyring has said `answer` to
/// its revocation. A key that the keyring revoked, or reported as missing,
/// expired or revoked before, is gone, and the session forgets its id. Any
/// other word of the keyring is an error and leaves the session as it was. A
/// session whose key id cannot be read stays, with that as the error.
pub open spec fn key_settled(session: SessionView, answer: Result<(), KeyStoreError>) -> (
    SessionView,
    Result<(), KeyFetchError>,
) {
    match session.key_id {
        Stored::Unreadable => (session, Err(KeyFetchError::SessionUnreadable)),
        _ => match settled(answer) {
            Ok(_) => (SessionView { key_id: Stored::Absent, ..session }, Ok(())),
            Err(e) => (session, Err(KeyFetchError::Store(e))),
        },
    }
}

/// What revoking the session's key comes to, given what the keyring said
/// to it where it was asked. It is asked only where the session names a key:
/// a session that names none has nothing to revoke, whatever `answer` is.
pub open spec fn revoked(session: SessionView, answer: Result<(), KeyStoreError>) -> (
    SessionView,
    Result<(), KeyFetchError>,
) {
    if session.key_id is Present {
        key_settled(session, answer)
    } else {
        key_settled(session, Ok(()))
    }
}

/// Settles the session after an attempt to revoke its key, to which the
/// keyring said `answer`.
pub fn check_key_err(session: &mut Session, answer: Result<(), KeyStoreError>) -> (r: Result<
    (),
    KeyFetchError,
>)
    ensures
        (final(session)@, r) == key_settled(old(session)@, answer),
{
    match &session.key_id {
        Stored::Unreadable => Err(KeyFetchError::SessionUnreadable),
        _ => match settle_revocation(answer) {
            Ok(()) => {
                session.key_id = Stored::Absent;
                Ok(())
            },
            Err(e) => Err(KeyFetchError::Store(e)),
        },
    }
}

/// Revokes the key that the session names and takes its id out of the
/// session. The keyring is asked only where the session names a key.
pub fn revoke_key(config: &Config, session: &mut Session) -> (r: Result<(), KeyFetchError>)
    ensures
        exists|answer: Result<(), KeyStoreError>|
            (final(session)@, r) == #[trigger] revoked(old(session)@, answer),
{
    let answer: Result<(), KeyStoreError> = match retrieve_key(config, session) {
        Ok(key) => {
            let mut key = key;
            key.revoke()
        },
        Err(KeyFetchError::Store(e)) => Err(e),
        Err(_) => Ok(()),
    };
    let ghost before = session@;
    let r = check_key_err(session, answer);
    assert((session@, r) == revoked(before, answer));
    r
}

/// The answer where closing the vault failed.
pub open spec fn close_failure() -> ReplyView {
    reply(Status::InternalServerError, true, "failed to close db"@)
}

/// What closing the vault comes to, given what the keyring said to the
/// attempt to revoke the key. The cached blob of the session's identity goes
/// first, then the key. A session whose identity cannot be read is left
/// alone, and so is the cache.
pub open spec fn closed(
    session: SessionView,
    cache: Map<Seq<char>, EncryptedView>,
    answer: Result<(), KeyStoreError>,
) -> (SessionView, Map<Seq<char>, EncryptedView>, Result<(), ReplyView>) {
    match session.user {
        Stored::Unreadable => (session, cache, Err(close_failure())),
        _ => {
            let cleared = match session.user {
                Stored::Present(user) => cache.remove(user.id),
                _ => cache,
            };
            match revoked(session, answer).1 {
                Ok(_) => (revoked(session, answer).0, cleared, Ok(())),
                Err(_) => (session, cleared, Err(close_failure())),
            }
        },
    }
}

/// Closing a vault that was closed before, or was never opened, succeeds
/// and changes nothing, whatever the keyring would say: it is not asked.
pub proof fn lemma_close_is_idempotent(
    session: SessionView,
    cache: Map<Seq<char>, EncryptedView>,
    first: Result<(), KeyStoreError>,
    second: Result<(), KeyStoreError>,
)
    ensures
        closed(session, cache, first).2 is Ok ==> closed(
            closed(session, cache, first).0,
            closed(session, cache, first).1,
            second,
        ) == (closed(session, cache, first).0, closed(session, cache, first).1, Ok::<(), ReplyView>(())),
        !(session.user is Unreadable) && session.key_id is Absent ==> closed(
            session,
            cache,
            first,
        ).2 is Ok,
{
    let once = closed(session, cache, first);
    if once.2 is Ok {
        assert(once.0.key_id is Absent);
        match session.user {
            Stored::Present(user) => {
                assert(once.1.remove(user.id) =~= once.1);
            },
            _ => {},
        }
    }
}

/// Closes the vault of the session's identity: drops the cached blob, then
/// revokes the key and forgets its id.
pub fn _close_db(session: &mut Session, config: &Config, db_cache: &mut DbCache) -> (r: Result<
    (),
    Reply,
>)
    ensures
        exists|answer: Result<(), KeyStoreError>|
            (final(session)@, final(db_cache)@, reply_view(r)) == #[trigger] closed(
                old(session)@,
                old(db_cache)@,
                answer,
            ),
{
    match &session.user {
        Stored::Unreadable => {
            assert((session@, db_cache@, Err::<(), ReplyView>(close_failure())) == closed(
                session@,
                db_cache@,
                Ok(()),
            ));
            return Err(Reply::new(Status::InternalServerError, true, "failed to close db"));
        },
        Stored::Present(user) => {
            db_cache.clear(user.id.as_str());
        },
        Stored::Absent => {},
    }
    let ghost before = session@;
    let ghost cleared = db_cache@;
    match revoke_key(config, session) {
        Ok(()) => {
            proof {
                let answer = choose|answer: Result<(), KeyStoreError>|
                    (session@, Ok::<(), KeyFetchError>(())) == #[trigger] revoked(before, answer);
                assert((session@, cleared, Ok::<(), ReplyView>(())) == closed(
                    before,
                    old(db_cache)@,
                    answer,
                ));
            }
            Ok(())
        },
        Err(e) => {
            proof {
                let answer = choose|answer: Result<(), KeyStoreError>|
                    (session@, Err::<(), KeyFetchError>(e)) == #[trigger] revoked(before, answer);
                assert((session@, cleared, Err::<(), ReplyView>(close_failure())) == closed(
                    before,
                    old(db_cache)@,
                    answer,
                ));
            }
            Err(Reply::new(Status::InternalServerError, true, "failed to close db"))
        },
    }
}

/// The id under which the session's identity has its blob in the cache. A
/// session without a readable identity has none.
pub open spec fn identity(session: SessionView) -> Option<Seq<char>> {
    match session.user {
        Stored::Present(user) => Some(user.id),
        _ => None,
    }
}

/// What a refused request leaves behind where the refusal closes the vault:
/// the closed session and cache, and the answer, which is `refusal` unless
/// the closing itself failed.
pub open spec fn refused_after_close(
    session: SessionView,
    cache: Map<Seq<char>, EncryptedView>,
    answer: Result<(), KeyStoreError>,
    refusal: ReplyView,
) -> (SessionView, Map<Seq<char>, EncryptedView>, ReplyView) {
    let after = closed(session, cache, answer);
    (
        after.0,
        after.1,
        match after.2 {
            Ok(_) => refusal,
            Err(failure) => failure,
        },
    )
}

/// Closes the vault and answers with `status` and `message`, unless the
/// closing fails: then with that failure.
fn close_and_refuse(
    session: &mut Session,
    config: &Config,
    db_cache: &mut DbCache,
    status: Status,
    message: &str,
) -> (refusal: Reply)
    ensures
        exists|answer: Result<(), KeyStoreError>|
            (final(session)@, final(db_cache)@, refusal@) == #[trigger] refused_after_close(
                old(session)@,
                old(db_cache)@,
                answer,
                reply(status, false, message@),
            ),
{
    let ghost before = session@;
    let ghost cache = db_cache@;
    match _close_db(session, config, db_cache) {
        Ok(()) => {
            let refusal = Reply::new(status, false, message);
            proof {
                let answer = choose|answer: Result<(), KeyStoreError>|
                    (session@, db_cache@, Ok::<(), ReplyView>(())) == #[trigger] closed(
                        before,
                        cache,
                        answer,
                    );
                assert((session@, db_cache@, refusal@) == refused_after_close(
                    before,
                    cache,
                    answer,
                    reply(status, false, message@),
                ));
            }
            refusal
        },
        Err(failure) => {
            proof {
                let answer = choose|answer: Result<(), KeyStoreError>|
                    (session@, db_cache@, Err::<(), ReplyView>(failure@)) == #[trigger] closed(
                        before,
                        cache,
                        answer,
                    );
                assert((session@, db_cache@, failure@) == refused_after_close(
                    before,
                    cache,
                    answer,
                    reply(status, false, message@),
                ));
            }
            failure
        },
    }
}

/// The view of a fetched vault, or of the refusal.
pub open spec fn vault_view(r: Result<SecretBytes, Reply>) -> Result<Seq<u8>, ReplyView> {
    match r {
        Ok(vault) => Ok(vault@),
        Err(refusal) => Err(refusal@),
    }
}

/// The answer where no key could be fetched.
pub open spec fn no_key(status: Status) -> ReplyView {
    reply(status, false, "failed to retrieve key"@)
}

/// The answer where no blob could be fetched.
pub open spec fn no_blob(status: Status) -> ReplyView {
    reply(status, false, "failed to retrieve db from cache"@)
}

/// The answer where the key does not open the blob.
pub open spec fn no_vault() -> ReplyView {
    reply(Status::InternalServerError, false, "failed to decrypt database"@)
}

/// What a request for the vault comes to, given what fetching the key came
/// to. The key comes first, then the blob.
///
/// A key that the keyring refused closes the vault and asks the client to
/// log in again; a session without a readable key id is the server's
/// failure and touches nothing. With the key at hand, a session without
/// identity and a missing blob are the server's failure and touch nothing;
/// a blob that has expired closes the vault and asks the client to log in
/// again. A live blob is read, which may refresh it in the cache, and
/// decrypted with the key: the vault comes back in serialized form, whatever
/// the key opens the blob to, and surely the vault that was sealed into it
/// under that key. A blob that the key does not open is the server's
/// failure.
pub open spec fn got_db(
    session: SessionView,
    cache: Map<Seq<char>, EncryptedView>,
    now: u64,
    timeout: u64,
    key: Result<SecretKeyView, KeyFetchError>,
    left: (SessionView, Map<Seq<char>, EncryptedView>),
    r: Result<Seq<u8>, ReplyView>,
) -> bool {
    match key {
        Err(KeyFetchError::Store(_)) => r is Err && exists|answer: Result<(), KeyStoreError>|
            (left.0, left.1, r->Err_0) == #[trigger] refused_after_close(
                session,
                cache,
                answer,
                no_key(Status::Unauthorized),
            ),
        Err(_) => left == (session, cache) && r == Err::<Seq<u8>, ReplyView>(
            no_key(Status::InternalServerError),
        ),
        Ok(found) => match identity(session) {
            None => left == (session, cache) && r == Err::<Seq<u8>, ReplyView>(
                no_blob(Status::InternalServerError),
            ),
            Some(id) => match lookup(cache, id, now, timeout) {
                Err(CacheError::NotFound) => left == (session, cache) && r == Err::<
                    Seq<u8>,
                    ReplyView,
                >(no_blob(Status::InternalServerError)),
                Err(CacheError::Expired(_)) => r is Err && exists|
                    answer: Result<(), KeyStoreError>,
                |
                    (left.0, left.1, r->Err_0) == #[trigger] refused_after_close(
                        session,
                        cache,
                        answer,
                        no_blob(Status::Unauthorized),
                    ),
                Ok(blob) => {
                    &&& left == (session, after_lookup(cache, id, now, timeout))
                    &&& r matches Ok(vault) ==> opens_to(
                        found.data,
                        blob.iv,
                        Seq::<u8>::empty(),
                        blob.data,
                        vault,
                    )
                    &&& r matches Err(refusal) ==> refusal == no_vault()
                    &&& forall|db: Seq<u8>|
                        found.data.len() == KEY_LENGTH && blob.iv.len() == NONCE_LENGTH && fits(
                            db.len(),
                            0,
                        ) && #[trigger] sealed(found.data, blob.iv, Seq::<u8>::empty(), db)
                            == blob.data ==> r == Ok::<Seq<u8>, ReplyView>(db)
                },
            },
        },
    }
}

/// Fetches the vault of the session's identity, given what fetching the
/// key came to: reads the blob from the cache and decrypts it with the key,
/// or refuses, by the rule of `got_db`.
pub fn get_db_with(
    session: &mut Session,
    config: &Config,
    db_cache: &mut DbCache,
    now: u64,
    key: Result<SecretKey, KeyFetchError>,
) -> (r: Result<SecretBytes, Reply>)
    requires
        now + config.db_session_timeout <= u64::MAX,
    ensures
        got_db(
            old(session)@,
            old(db_cache)@,
            now,
            config.db_session_timeout,
            key_view(key),
            (final(session)@, final(db_cache)@),
            vault_view(r),
        ),
{
    let key = match key {
        Ok(key) => key,
        Err(KeyFetchError::Store(_)) => {
            return Err(
                close_and_refuse(
                    session,
                    config,
                    db_cache,
                    Status::Unauthorized,
                    "failed to retrieve key",
                ),
            );
        },
        Err(_) => {
            return Err(Reply::new(Status::InternalServerError, false, "failed to retrieve key"));
        },
    };
    let enc = match &session.user {
        Stored::Present(user) => match db_cache.retrieve(
            user.id.as_str(),
            now,
            config.db_session_timeout,
        ) {
            Ok(enc) => enc,
            Err(CacheError::Expired(_)) => {
                return Err(
                    close_and_refuse(
                        session,
                        config,
                        db_cache,
                        Status::Unauthorized,
                        "failed to retrieve db from cache",
                    ),
                );
            },
            Err(CacheError::NotFound) => {
                return Err(
                    Reply::new(
                        Status::InternalServerError,
                        false,
                        "failed to retrieve db from cache",
                    ),
                );
            },
        },
        _ => {
            return Err(
                Reply::new(Status::InternalServerError, false, "failed to retrieve db from cache"),
            );
        },
    };
    match KeePass::from_enc(key, enc) {
        Ok(vault) => Ok(vault),
        Err(_) => Err(Reply::new(Status::InternalServerError, false, "failed to decrypt database")),
    }
}

/// Fetches the key, then the blob of the session's identity, and decrypts
/// the blob: the vault comes back in serialized form.
///
/// What the keyring says to the key decides the rest, by the rule of
/// `got_db`; what it can say is what `fetched` admits.
pub fn get_db(session: &mut Session, config: &Config, db_cache: &mut DbCache, now: u64) -> (r:
    Result<SecretBytes, Reply>)
    requires
        now + config.db_session_timeout <= u64::MAX,
    ensures
        exists|key: Result<SecretKeyView, KeyFetchError>|
            fetched(old(session)@, config.db_session_timeout, key) && #[trigger] got_db(
                old(session)@,
                old(db_cache)@,
                now,
                config.db_session_timeout,
                key,
                (final(session)@, final(db_cache)@),
                vault_view(r),
            ),
{
    let key = retrieve_key(config, session);
    get_db_with(session, config, db_cache, now, key)
}

/// What the question whether the vault is open comes to, given what
/// fetching the key came to. The vault is open exactly where it can be
/// fetched by the rule of `got_db`; then session and cache are as the
/// fetching left them. A vault that cannot be fetched is closed for good, as
/// far as that works.
pub open spec fn open_checked(
    session: SessionView,
    cache: Map<Seq<char>, EncryptedView>,
    now: u64,
    timeout: u64,
    key: Result<SecretKeyView, KeyFetchError>,
    left: (SessionView, Map<Seq<char>, EncryptedView>),
    open: bool,
) -> bool {
    exists|between: (SessionView, Map<Seq<char>, EncryptedView>), r: Result<Seq<u8>, ReplyView>|
        #[trigger] got_db(session, cache, now, timeout, key, between, r) && open == (r is Ok)
            && if open {
            left == between
        } else {
            exists|answer: Result<(), KeyStoreError>|
                left == (
                    (#[trigger] closed(between.0, between.1, answer)).0,
                    closed(between.0, between.1, answer).1,
                )
        }
}

/// Whether the vault of the session's identity is open, given what fetching
/// the key came to.
pub fn db_is_open_with(
    session: &mut Session,
    config: &Config,
    db_cache: &mut DbCache,
    now: u64,
    key: Result<SecretKey, KeyFetchError>,
) -> (open: bool)
    requires
        now + config.db_session_timeout <= u64::MAX,
    ensures
        open_checked(
            old(session)@,
            old(db_cache)@,
            now,
            config.db_session_timeout,
            key_view(key),
            (final(session)@, final(db_cache)@),
            open,
        ),
{
    match get_db_with(session, config, db_cache, now, key) {
        Ok(_) => true,
        Err(_) => {
            let _ = _close_db(session, config, db_cache);
            false
        },
    }
}

/// Whether the vault of the session's identity is open: whether it can be
/// fetched and decrypted right now. A vault that cannot is closed for good,
/// as far as that works.
///
/// What the keyring says to the key decides the rest, by the rule of
/// `open_checked`; what it can say is what `fetched` admits.
pub fn db_is_open(session: &mut Session, config: &Config, db_cache: &mut DbCache, now: u64) -> (open:
    bool)
    requires
        now + config.db_session_timeout <= u64::MAX,
    ensures
        exists|key: Result<SecretKeyView, KeyFetchError>|
            fetched(old(session)@, config.db_session_timeout, key) && #[trigger] open_checked(
                old(session)@,
                old(db_cache)@,
                now,
                config.db_session_timeout,
                key,
                (final(session)@, final(db_cache)@),
                open,
            ),
{
    let key = retrieve_key(config, session);
    db_is_open_with(session, config, db_cache, now, key)
}

/// A vault counts as open only with a key at hand, an identity in the
/// session and a live blob in the cache, and then it leaves the session as
/// it was and the cache with one more read. After a vault was found closed,
/// the identity is as before and the cache holds no blob for it. A blob
/// that was sealed under the key at hand always counts as open.
pub proof fn lemma_open_checked(
    session: SessionView,
    cache: Map<Seq<char>, EncryptedView>,
    now: u64,
    timeout: u64,
    key: Result<SecretKeyView, KeyFetchError>,
    left: (SessionView, Map<Seq<char>, EncryptedView>),
    open: bool,
)
    requires
        open_checked(session, cache, now, timeout, key, left, open),
    ensures
        open ==> key is Ok && identity(session) is Some && lookup(
            cache,
            identity(session)->Some_0,
            now,
            timeout,
        ) is Ok && left == (session, after_lookup(cache, identity(session)->Some_0, now, timeout)),
        !open ==> left.0.user == session.user,
        !open && identity(session) is Some ==> !left.1.dom().contains(identity(session)->Some_0),
        forall|db: Seq<u8>|
            key is Ok && identity(session) is Some && lookup(
                cache,
                identity(session)->Some_0,
                now,
                timeout,
            ) is Ok && key->Ok_0.data.len() == KEY_LENGTH && lookup(
                cache,
                identity(session)->Some_0,
                now,
                timeout,
            )->Ok_0.iv.len() == NONCE_LENGTH && fits(db.len(), 0) && #[trigger] sealed(
                key->Ok_0.data,
                lookup(cache, identity(session)->Some_0, now, timeout)->Ok_0.iv,
                Seq::<u8>::empty(),
                db,
            ) == lookup(cache, identity(session)->Some_0, now, timeout)->Ok_0.data ==> open,
{
    let (between, r) = choose|
        between: (SessionView, Map<Seq<char>, EncryptedView>),
        r: Result<Seq<u8>, ReplyView>,
    |
        #[trigger] got_db(session, cache, now, timeout, key, between, r) && open == (r is Ok)
            && if open {
            left == between
        } else {
            exists|answer: Result<(), KeyStoreError>|
                left == (
                    (#[trigger] closed(between.0, between.1, answer)).0,
                    closed(between.0, between.1, answer).1,
                )
        };
    if !open {
        let answer = choose|answer: Result<(), KeyStoreError>|
            left == (
                (#[trigger] closed(between.0, between.1, answer)).0,
                closed(between.0, between.1, answer).1,
            );
        assert(between.0.user == session.user);
        if identity(session) is Some {
            let id = identity(session)->Some_0;
            assert(left.1 == between.1.remove(id));
        }
    }
}

/// The view of an answer that may be none.
pub open spec fn reply_view(r: Result<(), Reply>) -> Result<(), ReplyView> {
    match r {
        Ok(_) => Ok(()),
        Err(refusal) => Err(refusal@),
    }
}

} // verus!
