use keepass4web::auth_backend::ldap::Attribute;
use keepass4web::auth_backend::ldap::DirectoryEntry;
use keepass4web::auth_backend::ldap::Ldap;
use keepass4web::auth_backend::ldap::LdapAction;
use keepass4web::auth_backend::ldap::LdapEvent;
use keepass4web::auth_backend::oidc::FlowState;
use keepass4web::auth_backend::oidc::Oidc;
use keepass4web::auth_backend::oidc::OidcParams;
use keepass4web::auth_backend::AuthError;
use keepass4web::auth_backend::LogoutType;
use keepass4web::auth_backend::UserInfo;
use keepass4web::config::backend;
use keepass4web::config::config::Config;
use keepass4web::db_backend;
use keepass4web::keepass::keepass::KeePass;
use keepass4web::keepass::db_cache::CacheError;
use keepass4web::keepass::db_cache::DbCache;
use keepass4web::keepass::encrypted::Encrypted;
use keepass4web::keepass::key::KeyStoreError;
use keepass4web::keepass::key::SecretKey;
use keepass4web::server::route::auth::authenticated;
use keepass4web::server::route::auth::backend_login;
use keepass4web::server::route::auth::callback_begin;
use keepass4web::server::route::auth::callback_finish;
use keepass4web::server::route::auth::close_db;
use keepass4web::server::route::auth::db_login;
use keepass4web::server::route::auth::db_login_begin;
use keepass4web::server::route::auth::logout;
use keepass4web::server::route::auth::user_login;
use keepass4web::server::route::auth::CallbackStart;
use keepass4web::server::route::auth::VaultRead;
use keepass4web::server::route::util::_close_db;
use keepass4web::server::route::util::check_key_err;
use keepass4web::server::route::util::check_user_session;
use keepass4web::server::route::util::db_is_open;
use keepass4web::server::route::auth::authenticated_with;
use keepass4web::server::route::auth::db_login_begin_with;
use keepass4web::server::route::auth::db_login_finish;
use keepass4web::server::route::util::db_is_open_with;
use keepass4web::server::route::util::get_db;
use keepass4web::server::route::util::get_db_with;
use keepass4web::server::route::util::note_key;
use keepass4web::server::route::util::retrieve_key;
use keepass4web::server::route::util::revoke_key;
use keepass4web::server::route::util::set_user_session;
use keepass4web::server::route::util::set_user_session_with;
use keepass4web::server::route::util::store_key;
use keepass4web::server::route::util::KeyFetchError;
use keepass4web::server::route::Reply;
use keepass4web::server::route::Status;
use keepass4web::server::server::Server;
use keepass4web::session::Session;
use keepass4web::session::Stored;

fn logged_in(id: &str) -> Session {
    let mut session = Session::new();
    set_user_session_with(&mut session, &UserInfo::named(id), "0123456789abcdef0123456789abcdef");
    session
}

fn flow() -> FlowState {
    FlowState { state: "csrf-1".to_string(), nonce: "n".to_string(), pkce: "p".to_string() }
}

fn assert_reply(reply: &Reply, status: Status, success: bool, message: &str) {
    assert_eq!(reply.status, status);
    assert_eq!(reply.success, success);
    assert_eq!(reply.message.as_deref(), Some(message));
}

fn is_empty(session: &Session) -> bool {
    matches!(session.user, Stored::Absent)
        && matches!(session.csrf, Stored::Absent)
        && matches!(session.auth_state, Stored::Absent)
        && matches!(session.key_id, Stored::Absent)
}

#[test]
fn status_codes() {
    assert_eq!(Status::Success.code(), 200);
    assert_eq!(Status::BadRequest.code(), 400);
    assert_eq!(Status::Unauthorized.code(), 401);
    assert_eq!(Status::Forbidden.code(), 403);
    assert_eq!(Status::InternalServerError.code(), 500);
    let ok = Reply::ok();
    assert_eq!(ok.status, Status::Success);
    assert!(ok.success);
    assert!(ok.message.is_none());
}

#[test]
fn login_on_a_free_session_sets_identity_and_token() {
    let config = Config::default();
    let mut session = Session::new();
    let mut user = UserInfo::named("alice");
    user.name = "Alice Liddell".to_string();
    let data = user_login(&mut session, &config, Ok(user)).unwrap();
    assert_eq!(data.csrf_token.len(), 32);
    assert!(data.csrf_token.chars().all(|c| c.is_ascii_alphanumeric()));
    assert_eq!(data.settings.cn, "Alice Liddell");
    assert_eq!(data.settings.timeout, 600);
    assert_eq!(data.settings.interval, 3_900);
    assert!(matches!(&session.user, Stored::Present(u) if u.id == "alice"));
    assert!(matches!(&session.csrf, Stored::Present(t) if *t == data.csrf_token));
}

#[test]
fn rejected_login_is_answered_the_same_whatever_the_cause() {
    let config = Config::default();
    for cause in [
        AuthError::IncorrectCredentials,
        AuthError::NotSupported,
        AuthError::CnAttributeMissing,
        AuthError::Outside { message: "directory unreachable".to_string() },
    ] {
        let mut session = Session::new();
        let refusal = user_login(&mut session, &config, Err(cause)).unwrap_err();
        assert_reply(&refusal, Status::Unauthorized, false, "username or password incorrect");
        assert!(is_empty(&session));
    }
}

#[test]
fn login_on_a_taken_or_broken_session_is_refused() {
    let config = Config::default();
    let mut session = logged_in("alice");
    let refusal = user_login(&mut session, &config, Ok(UserInfo::named("bob"))).unwrap_err();
    assert_reply(&refusal, Status::BadRequest, false, "already logged in");
    assert!(matches!(&session.user, Stored::Present(u) if u.id == "alice"));
    let mut session = Session::new();
    session.user = Stored::Unreadable;
    let refusal = user_login(&mut session, &config, Ok(UserInfo::named("bob"))).unwrap_err();
    assert_reply(&refusal, Status::InternalServerError, false, "failed to retrieve session");
    assert!(check_user_session(&Session::new()).is_ok());
    assert!(check_user_session(&session).is_err());
}

#[test]
fn set_user_session_mints_a_token() {
    let mut session = Session::new();
    let token = set_user_session(&mut session, &UserInfo::named("alice"));
    assert_eq!(token.len(), 32);
    assert!(matches!(&session.csrf, Stored::Present(t) if *t == token));
    assert!(matches!(&session.user, Stored::Present(u) if u.id == "alice"));
}

#[test]
fn backend_login_is_never_needed() {
    let config = Config::default();
    let reply = backend_login(&db_backend::new(&config));
    assert_reply(&reply, Status::BadRequest, false, "already logged into backend");
}

#[test]
fn vault_lifecycle_of_alice() {
    let config = Config::default();
    let mut cache = DbCache::new();
    let mut session = logged_in("alice");
    let vault = b"serialized vault of alice, opened with hunter2".to_vec();

    assert!(db_login_begin(&mut session, &config, &mut cache, 1_000).is_ok());
    let reply = db_login(&mut session, &config, &mut cache, VaultRead::Loaded(vault.clone()), 1_000);
    assert_eq!(reply.status, Status::Success);
    assert!(reply.success);
    let key_id = match &session.key_id {
        Stored::Present(id) => id.clone(),
        _ => panic!("no key id in the session"),
    };
    assert_eq!(key_id.len(), 16);

    let stored = cache.retrieve("alice", 1_000, config.db_session_timeout).unwrap();
    assert_eq!(stored.expiry(), 601_000);
    let again = cache.retrieve("alice", 1_000, config.db_session_timeout).unwrap();
    assert_eq!(again.data(), stored.data());
    let key = SecretKey::retrieve(&key_id, config.db_session_timeout).unwrap();
    assert_eq!(again.decrypt(key, &[]).unwrap().expose_secret(), &vault);

    let opened = get_db(&mut session, &config, &mut cache, 2_000).unwrap();
    assert_eq!(opened.expose_secret(), &vault);
    assert!(db_is_open(&mut session, &config, &mut cache, 2_500));
    let refusal = db_login_begin(&mut session, &config, &mut cache, 2_500).unwrap_err();
    assert_reply(&refusal, Status::BadRequest, false, "database already open");
    let probe = authenticated(&mut session, &config, &mut cache, &db_backend::new(&config), 3_000);
    assert!(probe.backend && probe.db && !probe.success);
    assert_eq!(probe.status, Status::Success);

    let reply = close_db(&mut session, &config, &mut cache);
    assert_eq!(reply.status, Status::Success);
    assert!(matches!(session.key_id, Stored::Absent));
    assert!(matches!(cache.retrieve("alice", 3_000, config.db_session_timeout), Err(CacheError::NotFound)));
    assert!(SecretKey::retrieve(&key_id, 1_000).is_err());
    assert!(matches!(&session.user, Stored::Present(u) if u.id == "alice"));

    let reply = close_db(&mut session, &config, &mut cache);
    assert_eq!(reply.status, Status::Success);
    assert!(reply.success);
    assert!(!db_is_open(&mut session, &config, &mut cache, 3_000));
    let probe = authenticated(&mut session, &config, &mut cache, &db_backend::new(&config), 3_000);
    assert!(probe.backend && !probe.db);
    assert_eq!(probe.status, Status::Unauthorized);
}

#[test]
fn alice_logs_in_by_directory_opens_and_closes_her_vault() {
    let mut config = Config::default();
    config.auth_backend = backend::AuthBackend::Ldap;
    config.ldap.bind = "cn=svc,dc=example".to_string();
    config.ldap.password = "svc-pw".to_string();
    let directory = Ldap::new(&config);
    let entry = DirectoryEntry {
        dn: "uid=alice,dc=example".to_string(),
        attrs: vec![
            Attribute { name: "uid".to_string(), values: vec!["alice".to_string()] },
            Attribute { name: "CN".to_string(), values: vec!["Alice".to_string()] },
        ],
    };
    let mut login = directory.login("alice", "directory-pw");
    let mut outcome = None;
    for event in [
        LdapEvent::Begin,
        LdapEvent::Bound { ok: true },
        LdapEvent::Found { entries: Some(vec![entry]) },
        LdapEvent::Unbound { ok: true },
        LdapEvent::Bound { ok: true },
        LdapEvent::Unbound { ok: true },
    ] {
        let (next, action) = directory.step(login, event);
        login = next;
        if let LdapAction::Done(done) = action {
            outcome = Some(done);
        }
    }
    let mut session = Session::new();
    let data = user_login(&mut session, &config, outcome.unwrap()).unwrap();
    assert_eq!(data.settings.cn, "Alice");
    assert!(matches!(&session.user, Stored::Present(u) if u.id == "alice"));

    let mut cache = DbCache::new();
    let vault = b"vault bytes that hunter2 unlocked".to_vec();
    assert!(db_login_begin(&mut session, &config, &mut cache, 10).is_ok());
    let reply = db_login(&mut session, &config, &mut cache, VaultRead::Loaded(vault.clone()), 10);
    assert_eq!(reply.status, Status::Success);
    let k1 = match &session.key_id {
        Stored::Present(id) => id.clone(),
        _ => panic!("no key id in the session"),
    };
    let first = cache.read("alice", 10, config.db_session_timeout).unwrap().0;
    let second = cache.retrieve("alice", 10, config.db_session_timeout).unwrap();
    assert_eq!(first.data(), second.data());
    assert_eq!(first.iv(), second.iv());
    let key = SecretKey::retrieve(&k1, config.db_session_timeout).unwrap();
    assert_eq!(key.key_id, k1);
    assert_eq!(second.decrypt(key, &[]).unwrap().expose_secret(), &vault);

    assert_eq!(close_db(&mut session, &config, &mut cache).status, Status::Success);
    assert!(matches!(cache.retrieve("alice", 10, config.db_session_timeout), Err(CacheError::NotFound)));
    assert!(cache.read("alice", 10, config.db_session_timeout).is_err());
    assert!(SecretKey::retrieve(&k1, config.db_session_timeout).is_err());
}

#[test]
fn closing_a_vault_that_was_never_opened_succeeds() {
    let config = Config::default();
    let mut cache = DbCache::new();
    let mut session = logged_in("carol");
    assert!(_close_db(&mut session, &config, &mut cache).is_ok());
    assert!(_close_db(&mut session, &config, &mut cache).is_ok());
    let mut nobody = Session::new();
    assert!(_close_db(&mut nobody, &config, &mut cache).is_ok());
    assert_eq!(close_db(&mut nobody, &config, &mut cache).status, Status::Success);
}

#[test]
fn closing_with_an_unreadable_session_is_the_servers_failure() {
    let config = Config::default();
    let mut cache = DbCache::new();
    cache.store("alice", Encrypted::from_parts(vec![1], vec![0; 12], 10));
    let mut session = Session::new();
    session.user = Stored::Unreadable;
    let refusal = _close_db(&mut session, &config, &mut cache).unwrap_err();
    assert_reply(&refusal, Status::InternalServerError, true, "failed to close db");
    let mut session = logged_in("alice");
    session.key_id = Stored::Unreadable;
    let refusal = _close_db(&mut session, &config, &mut cache).unwrap_err();
    assert_reply(&refusal, Status::InternalServerError, true, "failed to close db");
    assert!(matches!(cache.retrieve("alice", 0, 0), Err(CacheError::NotFound)));
}

#[test]
fn closing_when_the_key_is_gone_already_succeeds() {
    let config = Config::default();
    let mut cache = DbCache::new();
    let mut session = logged_in("dave");
    session.key_id = Stored::Present("this-key-never-existed-anywhere".to_string());
    assert!(_close_db(&mut session, &config, &mut cache).is_ok());
    assert!(matches!(session.key_id, Stored::Absent));
}

#[test]
fn revoke_settles_the_session_by_the_keyrings_answer() {
    let mut session = logged_in("alice");
    session.key_id = Stored::Present("K1".to_string());
    assert_eq!(check_key_err(&mut session, Err(KeyStoreError::AccessDenied)), Err(KeyFetchError::Store(KeyStoreError::AccessDenied)));
    assert!(matches!(&session.key_id, Stored::Present(id) if id == "K1"));
    for gone in [KeyStoreError::KeyDoesNotExist, KeyStoreError::KeyExpired, KeyStoreError::KeyRevoked] {
        session.key_id = Stored::Present("K1".to_string());
        assert_eq!(check_key_err(&mut session, Err(gone)), Ok(()));
        assert!(matches!(session.key_id, Stored::Absent));
    }
    session.key_id = Stored::Present("K1".to_string());
    assert_eq!(check_key_err(&mut session, Ok(())), Ok(()));
    assert!(matches!(session.key_id, Stored::Absent));
    assert_eq!(check_key_err(&mut session, Err(KeyStoreError::AccessDenied)), Err(KeyFetchError::Store(KeyStoreError::AccessDenied)));
    assert_eq!(check_key_err(&mut session, Err(KeyStoreError::KeyRevoked)), Ok(()));
    assert_eq!(check_key_err(&mut session, Ok(())), Ok(()));
    assert!(matches!(session.key_id, Stored::Absent));
    session.key_id = Stored::Unreadable;
    assert_eq!(check_key_err(&mut session, Ok(())), Err(KeyFetchError::SessionUnreadable));
}

#[test]
fn key_helpers_follow_the_session() {
    let config = Config::default();
    let mut session = logged_in("erin");
    assert!(matches!(retrieve_key(&config, &session), Err(KeyFetchError::NoKeyId)));
    assert_eq!(revoke_key(&config, &mut session), Ok(()));
    let key = SecretKey::new(vec![8u8; 32]);
    let id = key.key_id.clone();
    store_key(&config, &mut session, key).unwrap();
    assert!(matches!(&session.key_id, Stored::Present(k) if *k == id));
    let back = retrieve_key(&config, &session).unwrap();
    assert_eq!(back.key_id, id);
    assert_eq!(back.expose_secret(), &vec![8u8; 32]);
    assert_eq!(revoke_key(&config, &mut session), Ok(()));
    assert!(matches!(session.key_id, Stored::Absent));
    assert!(SecretKey::retrieve(&id, 1_000).is_err());
    session.key_id = Stored::Unreadable;
    assert!(matches!(retrieve_key(&config, &session), Err(KeyFetchError::SessionUnreadable)));
    assert_eq!(revoke_key(&config, &mut session), Err(KeyFetchError::SessionUnreadable));
}

#[test]
fn key_with_a_nul_in_its_id_is_not_stored() {
    let config = Config::default();
    let mut session = logged_in("nora");
    let key = SecretKey::with_id("K\0".to_string(), vec![2u8; 32]);
    assert_eq!(store_key(&config, &mut session, key), Err(KeyStoreError::InvalidDescription));
    assert!(matches!(session.key_id, Stored::Absent));
    assert!(matches!(&session.user, Stored::Present(u) if u.id == "nora"));
}

#[test]
fn vault_that_did_not_open_is_unauthorized() {
    let config = Config::default();
    let mut cache = DbCache::new();
    let mut session = logged_in("frank");
    let reply = db_login(&mut session, &config, &mut cache, VaultRead::Failed, 0);
    assert_reply(&reply, Status::Unauthorized, false, "keepass db initialization failed");
    let reply = db_login(&mut session, &config, &mut cache, VaultRead::Unserializable, 0);
    assert_reply(&reply, Status::InternalServerError, false, "failed to encrypt database");
    assert!(matches!(session.key_id, Stored::Absent));
    assert!(matches!(cache.retrieve("frank", 0, 0), Err(CacheError::NotFound)));
}

#[test]
fn get_db_without_key_id_is_the_servers_failure() {
    let config = Config::default();
    let mut cache = DbCache::new();
    let mut session = logged_in("gail");
    cache.store("gail", Encrypted::from_parts(vec![1], vec![0; 12], 10_000));
    let refusal = get_db(&mut session, &config, &mut cache, 0).err().unwrap();
    assert_reply(&refusal, Status::InternalServerError, false, "failed to retrieve key");
    assert!(cache.retrieve("gail", 0, 0).is_ok());
}

#[test]
fn get_db_with_a_key_that_is_gone_closes_the_vault() {
    let config = Config::default();
    let mut cache = DbCache::new();
    let mut session = logged_in("hank");
    session.key_id = Stored::Present("this-key-was-never-stored-here-1".to_string());
    cache.store("hank", Encrypted::from_parts(vec![1], vec![0; 12], 10_000));
    let refusal = get_db(&mut session, &config, &mut cache, 0).err().unwrap();
    assert_reply(&refusal, Status::Unauthorized, false, "failed to retrieve key");
    assert!(matches!(session.key_id, Stored::Absent));
    assert!(matches!(cache.retrieve("hank", 0, 0), Err(CacheError::NotFound)));
}

#[test]
fn get_db_after_expiry_asks_to_log_in_again() {
    let config = Config::default();
    let mut cache = DbCache::new();
    let mut session = logged_in("ines");
    let reply = db_login(&mut session, &config, &mut cache, VaultRead::Loaded(vec![1, 2, 3]), 0);
    assert_eq!(reply.status, Status::Success);
    let key_id = match &session.key_id {
        Stored::Present(id) => id.clone(),
        _ => panic!("no key"),
    };
    let refusal = get_db(&mut session, &config, &mut cache, config.db_session_timeout).err().unwrap();
    assert_reply(&refusal, Status::Unauthorized, false, "failed to retrieve db from cache");
    assert!(matches!(session.key_id, Stored::Absent));
    assert!(matches!(cache.retrieve("ines", 0, 0), Err(CacheError::NotFound)));
    assert!(SecretKey::retrieve(&key_id, 1_000).is_err());
}

#[test]
fn get_db_with_key_but_no_blob_is_the_servers_failure() {
    let config = Config::default();
    let mut cache = DbCache::new();
    let mut session = logged_in("jane");
    store_key(&config, &mut session, SecretKey::new(vec![1u8; 32])).unwrap();
    let refusal = get_db(&mut session, &config, &mut cache, 0).err().unwrap();
    assert_reply(&refusal, Status::InternalServerError, false, "failed to retrieve db from cache");
    assert!(matches!(session.key_id, Stored::Present(_)));
    assert_eq!(revoke_key(&config, &mut session), Ok(()));
}

#[test]
fn get_db_with_a_blob_that_the_key_does_not_open_is_the_servers_failure() {
    let config = Config::default();
    let mut cache = DbCache::new();
    let mut session = logged_in("kurt");
    store_key(&config, &mut session, SecretKey::new(vec![1u8; 32])).unwrap();
    cache.store("kurt", Encrypted::from_parts(vec![0u8; 48], vec![0; 12], 10_000));
    let refusal = get_db(&mut session, &config, &mut cache, 0).err().unwrap();
    assert_reply(&refusal, Status::InternalServerError, false, "failed to decrypt database");
    assert_eq!(revoke_key(&config, &mut session), Ok(()));
}

#[test]
fn logout_twice_succeeds_both_times() {
    let config = Config::default();
    let mut cache = DbCache::new();
    let mut session = logged_in("lena");
    let reply = db_login(&mut session, &config, &mut cache, VaultRead::Loaded(vec![1, 2, 3]), 0);
    assert_eq!(reply.status, Status::Success);
    let target = logout(&mut session, &config, &mut cache, Ok(LogoutType::Redirect { url: "https://idp.example/logout".to_string() })).unwrap();
    assert!(matches!(target, LogoutType::Redirect { url } if url == "https://idp.example/logout"));
    assert!(is_empty(&session));
    assert!(matches!(cache.retrieve("lena", 0, 0), Err(CacheError::NotFound)));
    let target = logout(&mut session, &config, &mut cache, Err(AuthError::NoSessionEndpoint)).unwrap();
    assert!(matches!(target, LogoutType::Nothing));
    assert!(is_empty(&session));
    let target = logout(&mut Session::new(), &config, &mut cache, Ok(LogoutType::Nothing)).unwrap();
    assert!(matches!(target, LogoutType::Nothing));
}

#[test]
fn logout_without_target_or_session_fails_and_keeps_the_session() {
    let config = Config::default();
    let mut cache = DbCache::new();
    let mut session = logged_in("mona");
    let refusal = logout(&mut session, &config, &mut cache, Err(AuthError::NoSessionEndpoint)).unwrap_err();
    assert_reply(&refusal, Status::Unauthorized, false, "failed to retrieve logout type/url");
    assert!(matches!(&session.user, Stored::Present(u) if u.id == "mona"));
    session.user = Stored::Unreadable;
    let refusal = logout(&mut session, &config, &mut cache, Ok(LogoutType::Nothing)).unwrap_err();
    assert_reply(&refusal, Status::InternalServerError, true, "failed to retrieve session");
}

#[test]
fn callback_with_tampered_state_destroys_the_session() {
    let mut config = Config::default();
    config.auth_backend = backend::AuthBackend::Oidc;
    let backend = Oidc::new(&config);
    let mut session = Session::new();
    session.auth_state = Stored::Present(flow());
    let kept = match callback_begin(&mut session) {
        CallbackStart::Proceed(kept) => kept,
        _ => panic!("the callback did not proceed"),
    };
    let params = OidcParams { state: "tampered".to_string(), error: None, error_description: None, code: "c".to_string() };
    let outcome = backend.callback_start(&kept, &params).map(|_| UserInfo::named("never"));
    let page = callback_finish(&mut session, &config, outcome);
    assert!(!page.success);
    assert_eq!(page.message.as_deref(), Some("invalid csrf token (state)"));
    assert!(page.data.is_none());
    assert!(is_empty(&session));
}

#[test]
fn callback_cannot_be_replayed() {
    let config = Config::default();
    let mut session = Session::new();
    session.auth_state = Stored::Present(flow());
    assert!(matches!(callback_begin(&mut session), CallbackStart::Proceed(_)));
    let page = callback_finish(&mut session, &config, Ok(UserInfo::named("alice")));
    assert!(page.success);
    assert!(page.message.is_none());
    let data = page.data.unwrap();
    assert_eq!(data.csrf_token.len(), 32);
    assert_eq!(data.settings.cn, "alice");
    assert_eq!(data.settings.timeout, 600);
    assert!(matches!(&session.user, Stored::Present(u) if u.id == "alice"));
    assert!(matches!(session.auth_state, Stored::Absent));
    match callback_begin(&mut session) {
        CallbackStart::Refused(refusal) => assert_reply(&refusal, Status::BadRequest, false, "already logged in"),
        _ => panic!("a consumed callback was taken again"),
    }

    let mut session = Session::new();
    session.auth_state = Stored::Present(flow());
    let page = callback_finish(&mut session, &config, Err(AuthError::Outside { message: "invalid_grant".to_string() }));
    assert_eq!(page.message.as_deref(), Some("invalid_grant"));
    assert!(is_empty(&session));
    match callback_begin(&mut session) {
        CallbackStart::Failed(page) => {
            assert!(!page.success);
            assert_eq!(page.message.as_deref(), Some("failed to retrieve session auth state"));
        }
        _ => panic!("a failed callback was taken again"),
    }
}

#[test]
fn callback_without_state_fails_closed() {
    let mut session = Session::new();
    session.key_id = Stored::Present("K".to_string());
    assert!(matches!(callback_begin(&mut session), CallbackStart::Failed(_)));
    assert!(is_empty(&session));
    let mut session = Session::new();
    session.auth_state = Stored::Unreadable;
    assert!(matches!(callback_begin(&mut session), CallbackStart::Failed(_)));
    let mut session = Session::new();
    session.user = Stored::Unreadable;
    session.auth_state = Stored::Present(flow());
    match callback_begin(&mut session) {
        CallbackStart::Refused(refusal) => assert_reply(&refusal, Status::InternalServerError, false, "failed to retrieve session"),
        _ => panic!("a broken session was taken"),
    }
    assert!(matches!(session.auth_state, Stored::Present(_)));
}

fn loose_key(material: u8) -> SecretKey {
    SecretKey::with_id("a-key-held-in-memory".to_string(), vec![material; 32])
}

#[test]
fn get_db_with_puts_the_key_before_the_blob() {
    let config = Config::default();
    let mut cache = DbCache::new();
    let mut session = logged_in("olga");

    let refusal = get_db_with(&mut session, &config, &mut cache, 0, Err(KeyFetchError::NoKeyId)).err().unwrap();
    assert_reply(&refusal, Status::InternalServerError, false, "failed to retrieve key");
    let refusal = get_db_with(&mut session, &config, &mut cache, 0, Err(KeyFetchError::SessionUnreadable)).err().unwrap();
    assert_reply(&refusal, Status::InternalServerError, false, "failed to retrieve key");

    session.key_id = Stored::Present("a-key-that-no-keyring-ever-held".to_string());
    let gone = Err(KeyFetchError::Store(KeyStoreError::KeyRevoked));
    let refusal = get_db_with(&mut session, &config, &mut cache, 0, gone).err().unwrap();
    assert_reply(&refusal, Status::Unauthorized, false, "failed to retrieve key");
    assert!(matches!(session.key_id, Stored::Absent));

    let refusal = get_db_with(&mut session, &config, &mut cache, 0, Ok(loose_key(1))).err().unwrap();
    assert_reply(&refusal, Status::InternalServerError, false, "failed to retrieve db from cache");
}

#[test]
fn get_db_with_opens_what_the_key_sealed() {
    let config = Config::default();
    let mut cache = DbCache::new();
    let mut session = logged_in("olga");
    let (key, enc) = KeePass::to_enc(&config, vec![5, 6, 7], 0).unwrap();
    let material = key.expose_secret().clone();
    assert_eq!(enc.data().len(), 3 + 16 + 16);
    cache.store("olga", enc);

    let vault = get_db_with(&mut session, &config, &mut cache, 1, Ok(key)).ok().unwrap();
    assert_eq!(vault.expose_secret(), &vec![5u8, 6, 7]);
    assert!(matches!(&session.user, Stored::Present(u) if u.id == "olga"));
    assert_eq!(cache.read("olga", 1, 0).unwrap().0.expiry(), config.db_session_timeout);

    let refusal = get_db_with(&mut session, &config, &mut cache, 1, Ok(loose_key(9))).err().unwrap();
    assert_reply(&refusal, Status::InternalServerError, false, "failed to decrypt database");
    assert!(cache.read("olga", 1, 0).is_ok());

    let mut nobody = Session::new();
    let again = SecretKey::with_id("k".to_string(), material.clone());
    let refusal = get_db_with(&mut nobody, &config, &mut cache, 1, Ok(again)).err().unwrap();
    assert_reply(&refusal, Status::InternalServerError, false, "failed to retrieve db from cache");
    assert!(cache.read("olga", 1, 0).is_ok());
    assert!(cache.read("unknown", 1, 0).is_err());

    let late = config.db_session_timeout;
    let again = SecretKey::with_id("k".to_string(), material);
    let refusal = get_db_with(&mut session, &config, &mut cache, late, Ok(again)).err().unwrap();
    assert_reply(&refusal, Status::Unauthorized, false, "failed to retrieve db from cache");
    assert!(matches!(cache.read("olga", 0, 0), Err(CacheError::NotFound)));
}

#[test]
fn vault_counts_as_open_exactly_where_it_can_be_fetched() {
    let config = Config::default();
    let backend = db_backend::new(&config);
    let mut cache = DbCache::new();
    let mut session = logged_in("pia");
    let (key, enc) = KeePass::to_enc(&config, vec![1, 2], 0).unwrap();
    let material = key.expose_secret().clone();
    cache.store("pia", enc);
    let fresh = |m: &Vec<u8>| SecretKey::with_id("k".to_string(), m.clone());

    assert!(db_is_open_with(&mut session, &config, &mut cache, 1, Ok(key)));
    let probe = authenticated_with(&mut session, &config, &mut cache, &backend, 1, Ok(fresh(&material)));
    assert!(probe.db && probe.backend && !probe.success);
    assert_eq!(probe.status, Status::Success);
    let refusal = db_login_begin_with(&mut session, &config, &mut cache, 1, Ok(fresh(&material))).unwrap_err();
    assert_reply(&refusal, Status::BadRequest, false, "database already open");
    assert!(cache.read("pia", 1, 0).is_ok());

    let probe = authenticated_with(&mut session, &config, &mut cache, &backend, 1, Err(KeyFetchError::NoKeyId));
    assert!(!probe.db && probe.backend && !probe.success);
    assert_eq!(probe.status, Status::Unauthorized);
    assert!(matches!(cache.read("pia", 1, 0), Err(CacheError::NotFound)));

    let (_, enc) = KeePass::to_enc(&config, vec![1, 2], 0).unwrap();
    cache.store("pia", enc);
    assert!(!db_is_open_with(&mut session, &config, &mut cache, 1, Ok(loose_key(3))));
    assert!(matches!(cache.read("pia", 1, 0), Err(CacheError::NotFound)));
    assert!(db_login_begin_with(&mut session, &config, &mut cache, 1, Ok(loose_key(3))).is_ok());
    assert!(!db_is_open_with(&mut Session::new(), &config, &mut cache, 1, Ok(loose_key(3))));
}

#[test]
fn finishing_a_vault_opening_keeps_key_and_blob_together() {
    let config = Config::default();
    let mut cache = DbCache::new();
    let mut session = logged_in("quin");
    let (_, enc) = KeePass::to_enc(&config, vec![4], 0).unwrap();
    let data = enc.data().clone();

    let reply = db_login_finish(&mut session, &mut cache, "K1", enc.clone(), Err(KeyStoreError::QuotaExceeded));
    assert_reply(&reply, Status::InternalServerError, true, "failed to store key");
    assert!(matches!(session.key_id, Stored::Absent));
    assert!(matches!(cache.read("quin", 0, 0), Err(CacheError::NotFound)));

    let mut nobody = Session::new();
    let reply = db_login_finish(&mut nobody, &mut cache, "K1", enc.clone(), Ok(()));
    assert_reply(&reply, Status::InternalServerError, true, "failed to store db");
    assert!(matches!(nobody.key_id, Stored::Absent));
    assert!(matches!(cache.read("unknown", 0, 0), Err(CacheError::NotFound)));

    let reply = db_login_finish(&mut session, &mut cache, "K1", enc, Ok(()));
    assert_eq!(reply.status, Status::Success);
    assert!(reply.success && reply.message.is_none());
    assert!(matches!(&session.key_id, Stored::Present(id) if id == "K1"));
    assert_eq!(cache.read("quin", 0, 0).unwrap().0.data(), &data);
}

#[test]
fn vault_of_a_session_without_identity_is_not_kept() {
    let config = Config::default();
    let mut cache = DbCache::new();
    for user in [Stored::Absent, Stored::Unreadable] {
        let mut session = Session::new();
        session.user = user;
        let reply = db_login(&mut session, &config, &mut cache, VaultRead::Loaded(vec![1, 2, 3]), 0);
        assert_reply(&reply, Status::InternalServerError, true, "failed to store db");
        assert!(matches!(session.key_id, Stored::Absent));
        assert!(matches!(cache.read("unknown", 0, 0), Err(CacheError::NotFound)));
        let reply = db_login(&mut session, &config, &mut cache, VaultRead::Failed, 0);
        assert_reply(&reply, Status::Unauthorized, false, "keepass db initialization failed");
    }
}

#[test]
fn note_key_follows_the_keyrings_word() {
    let mut session = logged_in("rosa");
    assert_eq!(note_key(&mut session, "K7", Err(KeyStoreError::AccessDenied)), Err(KeyStoreError::AccessDenied));
    assert!(matches!(session.key_id, Stored::Absent));
    assert_eq!(note_key(&mut session, "K7", Ok(())), Ok(()));
    assert!(matches!(&session.key_id, Stored::Present(id) if id == "K7"));
    assert!(matches!(&session.user, Stored::Present(u) if u.id == "rosa"));
}

#[test]
fn serialized_vault_round_trips_through_its_blob() {
    let mut config = Config::default();
    config.db_session_timeout = 5_000;
    let (key, enc) = KeePass::to_enc(&config, vec![1, 2, 3, 4], 100).unwrap();
    assert_eq!(enc.expiry(), 5_100);
    let back = KeePass::from_enc(key, enc).ok().unwrap();
    assert_eq!(back.expose_secret(), &vec![1u8, 2, 3, 4]);
    let (_, enc) = KeePass::to_enc(&config, vec![9], 0).unwrap();
    let r = KeePass::from_enc(SecretKey::new(vec![0u8; 32]), enc);
    assert!(r.is_err());
}

#[test]
fn session_cookie_lives_whole_seconds() {
    let mut config = Config::default();
    assert_eq!(Server::session_ttl_seconds(&config), 3_600);
    config.session_lifetime = 1_999;
    assert_eq!(Server::session_ttl_seconds(&config), 1);
}
