//! The session as the broker sees it: four slots that travel with the
//! user's cookie.

use vstd::prelude::*;
use crate::auth_backend::oidc::FlowState;
use crate::auth_backend::oidc::FlowStateView;
use crate::auth_backend::UserInfo;
use crate::auth_backend::UserInfoView;

verus! {

/// The id reported for a session without identity.
pub const SESSION_USER_UNKNOWN: &'static str = "unknown";

/// What the session storage gave for one slot.
#[derive(Debug)]
pub enum Stored<T> {
    /// The slot is empty.
    Absent,
    /// The slot holds this value.
    Present(T),
    /// The storage failed, or what it holds cannot be read.
    Unreadable,
}

/// One user's session.
#[derive(Debug)]
pub struct Session {
    /// Who is logged in.
    pub user: Stored<UserInfo>,
    /// The token that requests must echo.
    pub csrf: Stored<String>,
    /// The federated login in flight.
    pub auth_state: Stored<FlowState>,
    /// The id of the key that opens the cached vault.
    pub key_id: Stored<String>,
}

/// What a `Session` holds, as mathematical values.
pub struct SessionView {
    pub user: Stored<UserInfoView>,
    pub csrf: Stored<Seq<char>>,
    pub auth_state: Stored<FlowStateView>,
    pub key_id: Stored<Seq<char>>,
}

/// The view of the identity's slot.
pub open spec fn user_view(slot: Stored<UserInfo>) -> Stored<UserInfoView> {
    match slot {
        Stored::Absent => Stored::Absent,
        Stored::Present(user) => Stored::Present(user@),
        Stored::Unreadable => Stored::Unreadable,
    }
}

/// The view of a slot that holds text.
pub open spec fn text_view(slot: Stored<String>) -> Stored<Seq<char>> {
    match slot {
        Stored::Absent => Stored::Absent,
        Stored::Present(text) => Stored::Present(text@),
        Stored::Unreadable => Stored::Unreadable,
    }
}

/// The view of the slot of the login in flight.
pub open spec fn flow_view(slot: Stored<FlowState>) -> Stored<FlowStateView> {
    match slot {
        Stored::Absent => Stored::Absent,
        Stored::Present(flow) => Stored::Present(flow@),
        Stored::Unreadable => Stored::Unreadable,
    }
}

impl View for Session {
    type V = SessionView;

    open spec fn view(&self) -> SessionView {
        SessionView {
            user: user_view(self.user),
            csrf: text_view(self.csrf),
            auth_state: flow_view(self.auth_state),
            key_id: text_view(self.key_id),
        }
    }
}

/// The session with nothing in it.
pub open spec fn empty_session() -> SessionView {
    SessionView {
        user: Stored::Absent,
        csrf: Stored::Absent,
        auth_state: Stored::Absent,
        key_id: Stored::Absent,
    }
}

impl Session {
    /// A session with nothing in it.
    pub fn new() -> (session: Self)
        ensures
            session@ == empty_session(),
    {
        Session {
            user: Stored::Absent,
            csrf: Stored::Absent,
            auth_state: Stored::Absent,
            key_id: Stored::Absent,
        }
    }
}

/// What the broker asks of a session.
pub trait AuthSession {
    /// Empties the session.
    fn destroy(&mut self);

    /// The id of who is logged in; `unknown` where nobody is.
    fn get_user_id(&self) -> String;

    /// Whether somebody is logged in.
    fn is_authorized(&self) -> bool;
}

impl AuthSession for Session {
    fn destroy(&mut self)
        ensures
            final(self)@ == empty_session(),
    {
        self.user = Stored::Absent;
        self.csrf = Stored::Absent;
        self.auth_state = Stored::Absent;
        self.key_id = Stored::Absent;
    }

    fn get_user_id(&self) -> (id: String)
        ensures
            id@ == (match self@.user {
                Stored::Present(user) => user.id,
                _ => SESSION_USER_UNKNOWN@,
            }),
    {
        match &self.user {
            Stored::Present(user) => user.id.clone(),
            _ => SESSION_USER_UNKNOWN.to_owned(),
        }
    }

    fn is_authorized(&self) -> (authorized: bool)
        ensures
            authorized == (self@.user is Present),
    {
        match &self.user {
            Stored::Present(_) => true,
            _ => false,
        }
    }
}

} // verus!
