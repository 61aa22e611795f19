use keepass4web::auth_backend::UserInfo;
use keepass4web::config::backend::AuthBackend;
use keepass4web::config::backend;
use keepass4web::config::config::Config;
use keepass4web::config::filesystem::Filesystem;
use keepass4web::config::htpasswd::Htpasswd;
use keepass4web::config::http::Credentials;
use keepass4web::config::ldap::Ldap;
use keepass4web::config::ldap::Scope;
use keepass4web::config::oidc::Oidc;
use keepass4web::config::search::Field;
use keepass4web::config::search::Search;
use keepass4web::config::ConfigError;
use keepass4web::db_backend;
use keepass4web::db_backend::DbBackend;

#[test]
fn config_defaults() {
    let config = Config::default();
    assert_eq!(config.listen, "127.0.0.1");
    assert_eq!(config.port, 8080);
    assert_eq!(config.db_session_timeout, 10 * 60 * 1000);
    assert_eq!(config.auth_check_interval, (60 * 60 + 5 * 60) * 1000);
    assert_eq!(config.session_lifetime, 60 * 60 * 1000);
    assert_eq!(config.auth_backend, AuthBackend::Nothing);
    assert_eq!(config.db_backend, backend::DbBackend::Filesystem);
    assert!(config.session_secret_key.0.is_empty());
    assert_eq!(AuthBackend::default(), AuthBackend::Nothing);
    assert_eq!(backend::DbBackend::default(), backend::DbBackend::Filesystem);
}

#[test]
fn ldap_defaults() {
    let ldap = Ldap::default();
    assert_eq!(ldap.uri, "ldap://localhost:339");
    assert_eq!(ldap.scope, Scope::Subtree);
    assert_eq!(ldap.base_dn, "");
    assert_eq!(ldap.filter, "()");
    assert_eq!(ldap.login_attribute, "uid");
    assert_eq!(ldap.bind, "");
    assert_eq!(ldap.password, "");
    assert!(ldap.database_attribute.is_none());
    assert!(ldap.keyfile_attribute.is_none());
    assert_eq!(Scope::default(), Scope::Subtree);
    let copy = ldap.clone();
    assert_eq!(copy.uri, ldap.uri);
    assert_eq!(copy.filter, ldap.filter);
}

#[test]
fn search_defaults() {
    let search = Search::default();
    assert_eq!(search.fields, vec![Field::Title, Field::Username, Field::Tags, Field::Notes, Field::Url]);
    assert!(search.extra_fields);
    assert!(!search.allow_regex);
    let copy = search.clone();
    assert_eq!(copy.fields, search.fields);
}

#[test]
fn oidc_validation_names_the_first_thing_missing() {
    let mut oidc = Oidc::default();
    assert!(oidc.scopes.is_empty());
    assert!(!oidc.save_id_token);
    assert_eq!(oidc.validate(), Err(ConfigError::OidcIssuer));
    oidc.issuer = Some("https://idp.example/".to_string());
    assert_eq!(oidc.validate(), Err(ConfigError::OidcClientId));
    oidc.client_id = "broker".to_string();
    assert_eq!(oidc.validate(), Err(ConfigError::OidcClientSecret));
    oidc.client_secret = "s".to_string();
    assert_eq!(oidc.validate(), Ok(()));
    oidc.scopes = vec!["email".to_string(), "profile".to_string()];
    assert_eq!(oidc.clone().scopes, oidc.scopes);
}

#[test]
fn path_validation() {
    assert_eq!(Filesystem::default().validate(), Err(ConfigError::FilesystemDbLocation));
    let fs = Filesystem { db_location: "/vault.kdbx".to_string(), keyfile_location: None };
    assert_eq!(fs.validate(), Ok(()));
    assert_eq!(Htpasswd::default().validate(), Err(ConfigError::HtpasswdPath));
    assert_eq!(Htpasswd { path: "/etc/htpasswd".to_string() }.validate(), Ok(()));
}

#[test]
fn config_validation_asks_the_chosen_backends() {
    let mut config = Config::default();
    assert_eq!(config.validate(), Err(ConfigError::FilesystemDbLocation));
    config.filesystem.db_location = "/vault.kdbx".to_string();
    assert_eq!(config.validate(), Ok(()));
    config.auth_backend = AuthBackend::Htpasswd;
    assert_eq!(config.validate(), Err(ConfigError::HtpasswdPath));
    config.auth_backend = AuthBackend::Oidc;
    config.filesystem.db_location = String::new();
    assert_eq!(config.validate(), Err(ConfigError::OidcIssuer));
    config.auth_backend = AuthBackend::Ldap;
    config.db_backend = backend::DbBackend::Http;
    assert_eq!(config.validate(), Ok(()));
    config.db_backend = backend::DbBackend::Test;
    assert_eq!(config.validate(), Ok(()));
}

#[test]
fn config_errors_have_their_words() {
    assert_eq!(ConfigError::FilesystemDbLocation.message(), "Filesystem: db location must be specified");
    assert_eq!(ConfigError::HtpasswdPath.message(), "Htpasswd: path must be specified");
    assert_eq!(ConfigError::OidcIssuer.message(), "issuer cannot be empty");
    assert_eq!(ConfigError::OidcClientId.message(), "OIDC: client_id must be specified");
    assert_eq!(ConfigError::OidcClientSecret.message(), "OIDC: secret_key must be specified");
}

#[test]
fn filesystem_backend_prefers_the_users_own_places() {
    let mut config = Config::default();
    config.filesystem.db_location = "/vaults/shared.kdbx".to_string();
    let backend = db_backend::filesystem::Filesystem::new(&config);
    let mut user = UserInfo::named("alice");
    assert_eq!(backend.db_path(&user), "/vaults/shared.kdbx");
    assert_eq!(backend.key_path(&user), None);
    user.db_location = Some("/vaults/alice.kdbx".to_string());
    user.keyfile_location = Some("/keys/alice.key".to_string());
    assert_eq!(backend.db_path(&user), "/vaults/alice.kdbx");
    assert_eq!(backend.key_path(&user), Some("/keys/alice.key".to_string()));
    config.filesystem.keyfile_location = Some("/keys/shared.key".to_string());
    let backend = db_backend::filesystem::Filesystem::new(&config);
    assert_eq!(backend.key_path(&UserInfo::named("bob")), Some("/keys/shared.key".to_string()));
    assert!(backend.authenticated());
    assert!(backend.validate_config().is_ok());
}

#[test]
fn http_backend_picks_address_and_credentials() {
    let mut config = Config::default();
    let backend = db_backend::http::Http::new(&config);
    let user = UserInfo::named("alice");
    let missing = backend.get_db_url(&user).unwrap_err();
    assert_eq!(missing.message(), "database file not specified in config nor found in user info");
    assert_eq!(backend.get_key_url(&user), None);
    let auth = backend.get_request();
    assert!(auth.basic.is_none() && auth.bearer.is_none());

    config.http.database_url = Some("https://dav.example/shared.kdbx".to_string());
    config.http.keyfile_url = Some("https://dav.example/shared.key".to_string());
    config.http.credentials = Some(Credentials { username: "svc".to_string(), password: Some("pw".to_string()) });
    config.http.bearer = Some("tok".to_string());
    let backend = db_backend::http::Http::new(&config);
    assert_eq!(backend.get_db_url(&user).unwrap(), "https://dav.example/shared.kdbx");
    assert_eq!(backend.get_key_url(&user), Some("https://dav.example/shared.key".to_string()));
    let auth = backend.get_request();
    assert_eq!(auth.basic, Some(("svc".to_string(), Some("pw".to_string()))));
    assert_eq!(auth.bearer.as_deref(), Some("tok"));
    let mut own = UserInfo::named("alice");
    own.db_location = Some("https://dav.example/alice.kdbx".to_string());
    own.keyfile_location = Some("https://dav.example/alice.key".to_string());
    assert_eq!(backend.get_db_url(&own).unwrap(), "https://dav.example/alice.kdbx");
    assert_eq!(backend.get_key_url(&own), Some("https://dav.example/alice.key".to_string()));
    assert!(backend.authenticated());
}

#[test]
fn test_backend_holds_bytes_in_memory() {
    let mut backend = db_backend::test::Test::new();
    assert!(backend.buf.is_empty());
    assert!(backend.authenticated());
    backend.get_db_write(b"some random");
    backend.get_db_write(b" data");
    assert_eq!(backend.get_db_read(), &b"some random data".to_vec());
}

#[test]
fn db_backend_factory_follows_the_configuration() {
    let mut config = Config::default();
    let chosen = db_backend::new(&config);
    assert!(matches!(chosen, db_backend::Backend::Filesystem(_)));
    assert!(chosen.authenticated());
    assert_eq!(chosen.validate_config(), Err(ConfigError::FilesystemDbLocation));
    config.db_backend = backend::DbBackend::Test;
    assert!(matches!(db_backend::new(&config), db_backend::Backend::Test(_)));
    config.db_backend = backend::DbBackend::Http;
    let chosen = db_backend::new(&config);
    assert!(matches!(chosen, db_backend::Backend::Http(_)));
    assert_eq!(chosen.validate_config(), Ok(()));
}
