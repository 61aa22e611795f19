//! The routes and the rules behind them.

use vstd::prelude::*;
use crate::text::opt_view;

pub mod auth;
pub mod util;

verus! {

/// Prefix of every route of the programming interface.
pub const API_PATH: &'static str = "/api/v1";

/// Prefix of the static files.
pub const STATIC_PATH: &'static str = "/assets";

/// The page that carries the single-page client.
pub const INDEX_FILE: &'static str = "public/index.html";

/// The status of an answer.
#[derive(Debug, Clone, Copy, PartialEq, Eq, Structural)]
pub enum Status {
    Success,
    BadRequest,
    Unauthorized,
    Forbidden,
    InternalServerError,
}

impl Status {
    /// The status as a number.
    pub open spec fn spec_code(self) -> u16 {
        match self {
            Status::Success => 200,
            Status::BadRequest => 400,
            Status::Unauthorized => 401,
            Status::Forbidden => 403,
            Status::InternalServerError => 500,
        }
    }

    /// The status as a number.
    #[verifier::when_used_as_spec(spec_code)]
    pub fn code(self) -> (code: u16)
        ensures
            code == self.spec_code(),
    {
        match self {
            Status::Success => 200,
            Status::BadRequest => 400,
            Status::Unauthorized => 401,
            Status::Forbidden => 403,
            Status::InternalServerError => 500,
        }
    }
}

/// An answer without data: a status, the flag that the client reads as
/// success, and a message.
#[derive(Debug)]
pub struct Reply {
    pub status: Status,
    pub success: bool,
    pub message: Option<String>,
}

/// What a `Reply` holds, as mathematical values.
pub struct ReplyView {
    pub status: Status,
    pub success: bool,
    pub message: Option<Seq<char>>,
}

impl View for Reply {
    type V = ReplyView;

    open spec fn view(&self) -> ReplyView {
        ReplyView { status: self.status, success: self.success, message: opt_view(self.message) }
    }
}

/// The answer with this status, flag and message.
pub open spec fn reply(status: Status, success: bool, message: Seq<char>) -> ReplyView {
    ReplyView { status, success, message: Some(message) }
}

/// The answer that all went well.
pub open spec fn reply_ok() -> ReplyView {
    ReplyView { status: Status::Success, success: true, message: None }
}

impl Reply {
    /// The answer with this status, flag and message.
    pub fn new(status: Status, success: bool, message: &str) -> (r: Reply)
        ensures
            r@ == reply(status, success, message@),
    {
        Reply { status, success, message: Some(message.to_owned()) }
    }

    /// The answer that all went well.
    pub fn ok() -> (r: Reply)
        ensures
            r@ == reply_ok(),
    {
        Reply { status: Status::Success, success: true, message: None }
    }
}

} // verus!
