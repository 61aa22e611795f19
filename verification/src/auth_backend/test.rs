use vstd::prelude::*;
use crate::auth_backend::login_view;
use crate::auth_backend::AuthError;
use crate::auth_backend::AuthErrorView;
use crate::auth_backend::LoginType;
use crate::auth_backend::LoginTypeView;
use crate::auth_backend::UserInfo;
use crate::auth_backend::UserInfoView;
use crate::text::str_eq;

verus! {

/// The backend for test harnesses: it knows one user.
pub struct Test;

/// What a login with this name and password gets: the user `test` with the
/// password `test` is let in, under that name; nobody else is.
pub open spec fn test_login(username: Seq<char>, password: Seq<char>) -> Result<
    UserInfoView,
    AuthErrorView,
> {
    if username == "test"@ && password == "test"@ {
        Ok(
            UserInfoView {
                id: username,
                name: username,
                db_location: None,
                keyfile_location: None,
                additional_data: None,
            },
        )
    } else {
        Err(AuthErrorView::IncorrectCredentials)
    }
}

impl Test {
    /// The login form.
    pub fn get_login_type(&self) -> (login: LoginType)
        ensures
            login@ == LoginTypeView::Mask,
    {
        LoginType::Mask
    }

    /// Lets the one known user in.
    pub fn login(&self, username: &str, password: &str) -> (r: Result<UserInfo, AuthError>)
        ensures
            login_view(r) == test_login(username@, password@),
    {
        if str_eq(username, "test") && str_eq(password, "test") {
            return Ok(UserInfo::named(username));
        }
        Err(AuthError::IncorrectCredentials)
    }
}

} // verus!
