use keepass4web::auth::csrf_matches;
use keepass4web::auth::gen_token;
use keepass4web::auth::get_login_type;
use keepass4web::auth::Access;
use keepass4web::auth::CheckAuth;
use keepass4web::auth::DbLogin;
use keepass4web::auth_backend::oidc::FlowState;
use keepass4web::auth_backend::LoginType;
use keepass4web::auth_backend::UserInfo;
use keepass4web::keepass::keepass::db_key_from_params;
use keepass4web::keepass::keepass::InvalidKeyfile;
use keepass4web::session::AuthSession;
use keepass4web::session::Session;
use keepass4web::session::Stored;

fn anonymous() -> Session {
    Session::new()
}

fn alice(token: &str) -> Session {
    let mut session = Session::new();
    session.user = Stored::Present(UserInfo::named("alice"));
    session.csrf = Stored::Present(token.to_string());
    session
}

fn decide(session: &Session, path: &str, header: Option<&[u8]>) -> Access {
    CheckAuth.new_transform(()).call(session, path, header)
}

#[test]
fn unauthenticated_requests_to_the_interface_are_unauthorized() {
    let session = anonymous();
    for path in ["/api/v1/get_groups", "/api/v1/logout", "/api/v1/icon/5", "/api/v1/db_login", "/api/v1/", "/api/v1/user_login/", "/api/v1/user_loginx"] {
        assert_eq!(decide(&session, path, None), Access::Unauthorized, "{}", path);
        assert_eq!(decide(&session, path, Some(b"anything")), Access::Unauthorized, "{}", path);
    }
}

#[test]
fn unauthenticated_requests_outside_the_interface_go_on() {
    let session = anonymous();
    for path in ["/", "/assets/app.js", "/callback_user_auth", "/api/v1/user_login", "/keepass", "/api/v1", "/api/v10/x", "/user_login"] {
        assert_eq!(decide(&session, path, None), Access::Forward, "{}", path);
    }
}

#[test]
fn unreadable_session_is_the_servers_failure() {
    let mut session = anonymous();
    session.user = Stored::Unreadable;
    assert!(!session.is_authorized());
    assert_eq!(decide(&session, "/api/v1/get_groups", None), Access::Unavailable);
    assert_eq!(decide(&session, "/api/v1/icon/5", Some(b"x")), Access::Unavailable);
    assert_eq!(decide(&session, "/api/v1/user_login", None), Access::Forward);
    assert_eq!(decide(&session, "/assets/app.js", None), Access::Forward);
    let mut session = alice("tok");
    session.csrf = Stored::Unreadable;
    assert_eq!(decide(&session, "/api/v1/get_groups", Some(b"tok")), Access::Unavailable);
    assert_eq!(decide(&session, "/api/v1/get_groups", None), Access::Unavailable);
    assert_eq!(decide(&session, "/api/v1/icon/5", None), Access::Forward);
}

#[test]
fn missing_or_wrong_token_is_forbidden() {
    let session = alice("0123456789abcdef0123456789abcdef");
    let path = "/api/v1/get_groups";
    assert_eq!(decide(&session, path, None), Access::Forbidden);
    assert_eq!(decide(&session, path, Some(b"")), Access::Forbidden);
    assert_eq!(decide(&session, path, Some(b"0123456789abcdef0123456789abcdeF")), Access::Forbidden);
    assert_eq!(decide(&session, path, Some(b"0123456789abcdef0123456789abcde")), Access::Forbidden);
    assert_eq!(decide(&session, path, Some(b"0123456789abcdef0123456789abcdef0")), Access::Forbidden);
    assert_eq!(decide(&session, "/api/v1/user_login", None), Access::Forbidden);
    assert_eq!(decide(&session, "/api/v1/icon", None), Access::Forbidden);
}

#[test]
fn matching_token_goes_on() {
    let session = alice("0123456789abcdef0123456789abcdef");
    assert_eq!(decide(&session, "/api/v1/get_groups", Some(b"0123456789abcdef0123456789abcdef")), Access::Forward);
}

#[test]
fn icons_and_static_files_need_no_token() {
    let session = alice("tok");
    assert_eq!(decide(&session, "/api/v1/icon/123e4567", None), Access::Forward);
    assert_eq!(decide(&session, "/assets/app.js", None), Access::Forward);
    assert_eq!(decide(&session, "/", Some(b"bad")), Access::Forward);
}

#[test]
fn session_without_token_forbids_every_header() {
    let mut session = alice("tok");
    session.csrf = Stored::Absent;
    assert_eq!(decide(&session, "/api/v1/get_groups", Some(b"tok")), Access::Forbidden);
    assert_eq!(decide(&session, "/api/v1/get_groups", Some(b"")), Access::Forbidden);
    assert_eq!(decide(&session, "/api/v1/get_groups", None), Access::Forbidden);
}

#[test]
fn csrf_matches_compares_bytes() {
    let session = alice("tok\u{e9}n");
    assert!(csrf_matches(&session, Some("tok\u{e9}n".as_bytes())));
    assert!(!csrf_matches(&session, Some(b"token")));
    assert!(!csrf_matches(&session, None));
    assert!(!csrf_matches(&anonymous(), Some(b"")));
}

#[test]
fn gen_token_has_length_and_alphabet() {
    for len in [0usize, 1, 16, 32, 100] {
        let token = gen_token(len);
        assert_eq!(token.chars().count(), len);
        assert!(token.chars().all(|c| c.is_ascii_alphanumeric()));
    }
    assert_ne!(gen_token(32), gen_token(32));
}

#[test]
fn session_reports_its_user() {
    assert_eq!(anonymous().get_user_id(), "unknown");
    assert_eq!(alice("t").get_user_id(), "alice");
    assert!(alice("t").is_authorized());
    assert!(!anonymous().is_authorized());
}

#[test]
fn destroy_empties_the_session() {
    let mut session = alice("t");
    session.key_id = Stored::Present("K1".to_string());
    session.destroy();
    assert!(matches!(session.user, Stored::Absent));
    assert!(matches!(session.csrf, Stored::Absent));
    assert!(matches!(session.auth_state, Stored::Absent));
    assert!(matches!(session.key_id, Stored::Absent));
}

#[test]
fn redirect_login_leaves_its_state_in_the_session() {
    let mut session = anonymous();
    let login = LoginType::Redirect {
        url: "https://idp.example/authorize?x=1".to_string(),
        state: FlowState { state: "s".to_string(), nonce: "n".to_string(), pkce: "p".to_string() },
    };
    let told = get_login_type(&mut session, login);
    assert!(matches!(&told, LoginType::Redirect { url, .. } if url == "https://idp.example/authorize?x=1"));
    match &session.auth_state {
        Stored::Present(flow) => {
            assert_eq!(flow.state, "s");
            assert_eq!(flow.nonce, "n");
            assert_eq!(flow.pkce, "p");
        }
        _ => panic!("no state kept"),
    }
}

#[test]
fn form_login_leaves_the_session_alone() {
    let mut session = anonymous();
    let told = get_login_type(&mut session, LoginType::Mask);
    assert!(matches!(told, LoginType::Mask));
    assert!(matches!(session.auth_state, Stored::Absent));
}

#[test]
fn empty_form_fields_count_as_not_given() {
    let login = DbLogin::from_form(String::new(), String::new());
    assert!(login.password.is_none());
    assert!(login.key.is_none());
    let login = DbLogin::from_form("hunter2".to_string(), "a2V5".to_string());
    assert_eq!(login.password.as_deref(), Some("hunter2"));
    assert_eq!(login.key, Some(b"a2V5".to_vec()));
}

#[test]
fn key_file_from_the_request_is_decoded() {
    let key = db_key_from_params(&DbLogin::from_form("hunter2".to_string(), "a2V5IGZpbGU=".to_string())).unwrap();
    assert_eq!(key.keyfile, Some(b"key file".to_vec()));
    assert!(!key.ask_backend);
    assert_eq!(key.password.as_deref(), Some("hunter2"));
    let key = db_key_from_params(&DbLogin { password: None, key: Some(Vec::new()) }).unwrap();
    assert_eq!(key.keyfile, Some(Vec::new()));
    assert!(!key.ask_backend);
}

#[test]
fn without_key_file_the_backend_is_asked() {
    let key = db_key_from_params(&DbLogin::from_form("hunter2".to_string(), String::new())).unwrap();
    assert!(key.keyfile.is_none());
    assert!(key.ask_backend);
    assert_eq!(key.password.as_deref(), Some("hunter2"));
    let key = db_key_from_params(&DbLogin::from_form(String::new(), String::new())).unwrap();
    assert!(key.keyfile.is_none() && key.ask_backend && key.password.is_none());
}

#[test]
fn key_file_that_is_no_base64_is_refused() {
    for bad in ["a2V5IGZpbGU", "a2V5 IGZpbGU=", "%%%%", "a2V5IGZpbGV="] {
        let r = db_key_from_params(&DbLogin::from_form(String::new(), bad.to_string()));
        assert_eq!(r.err(), Some(InvalidKeyfile), "{}", bad);
    }
    assert_eq!(InvalidKeyfile.message(), "key file is not valid base64");
}
