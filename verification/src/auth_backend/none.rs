use vstd::prelude::*;
use crate::auth_backend::login_view;
use crate::auth_backend::AuthError;
use crate::auth_backend::AuthErrorView;
use crate::auth_backend::LoginType;
use crate::auth_backend::LoginTypeView;
use crate::auth_backend::UserInfo;
use crate::auth_backend::UserInfoView;

verus! {

/// The backend that knows nobody: it shows the login form and turns every
/// login down.
pub struct NoAuth;

impl NoAuth {
    /// The login form.
    pub fn get_login_type(&self) -> (login: LoginType)
        ensures
            login@ == LoginTypeView::Mask,
    {
        LoginType::Mask
    }

    /// Turns the login down, whatever the name and the password.
    pub fn login(&self, username: &str, password: &str) -> (r: Result<UserInfo, AuthError>)
        ensures
            login_view(r) == Err::<UserInfoView, AuthErrorView>(AuthErrorView::IncorrectCredentials),
    {
        Err(AuthError::IncorrectCredentials)
    }
}

} // verus!
