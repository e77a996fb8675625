//! Replies to requests, and the steps that lead to them.

use serde_json::Value;
use vstd::prelude::*;

use crate::json::{empty_object, from_bool, from_integer, from_text, json, with, Json};
use crate::store::{Command, CommandView};

verus! {

pub const OK: u16 = 200;

pub const BAD_REQUEST: u16 = 400;

pub const UNAUTHORIZED: u16 = 401;

pub const INTERNAL_SERVER_ERROR: u16 = 500;

/// A reply: an HTTP status, and a JSON body if there is one.
#[derive(Debug)]
pub struct Response {
    pub status: u16,
    pub body: Option<Value>,
}

/// A [`Response`] as a mathematical value.
pub struct Reply {
    pub status: u16,
    pub body: Option<Json>,
}

impl View for Response {
    type V = Reply;

    open spec fn view(&self) -> Reply {
        Reply {
            status: self.status,
            body: match self.body {
                Some(body) => Some(json(body)),
                None => None,
            },
        }
    }
}

/// What to do next about a request: reply, or run a command and go on from the state `S` with
/// what comes back.
#[derive(Debug)]
pub enum Step<C, S, R> {
    Reply(R),
    Run(C, S),
}

impl<S: View> View for Step<Command, S, Response> {
    type V = Step<CommandView, S::V, Reply>;

    open spec fn view(&self) -> Step<CommandView, S::V, Reply> {
        match *self {
            Step::Reply(response) => Step::Reply(response@),
            Step::Run(command, state) => Step::Run(command@, state@),
        }
    }
}

/// A reply with a JSON body.
pub open spec fn json_reply(status: u16, body: Json) -> Reply {
    Reply { status, body: Some(body) }
}

/// A reply without a body.
pub open spec fn empty_reply(status: u16) -> Reply {
    Reply { status, body: None }
}

/// The reply that reports an error.
pub open spec fn error_reply(status: u16, message: Seq<char>) -> Reply {
    json_reply(status, Json::Object(map!["error"@ => Json::Text(message)]))
}

/// The reply to a request that is refused for want of valid credentials.
pub open spec fn refusal(message: Seq<char>) -> Reply {
    error_reply(UNAUTHORIZED, message)
}

/// The reply when the database fails.
pub open spec fn database_failure() -> Reply {
    error_reply(INTERNAL_SERVER_ERROR, "数据库错误"@)
}

/// How a user is described to clients.
pub open spec fn user_object(username: Seq<char>) -> Json {
    Json::Object(
        map![
            "name"@ => Json::Text(username),
            "display_name"@ => Json::Text(username),
            "avatar"@ => Json::Text(""@),
            "status"@ => Json::Integer(1),
            "is_admin"@ => Json::Bool(false),
        ],
    )
}

/// A reply with a JSON body.
pub fn json_response(status: u16, body: Value) -> (res: Response)
    ensures
        res@ == json_reply(status, json(body)),
{
    Response { status, body: Some(body) }
}

/// A reply without a body.
pub fn empty_response(status: u16) -> (res: Response)
    ensures
        res@ == empty_reply(status),
{
    Response { status, body: None }
}

/// The reply that reports an error.
pub fn error_response(status: u16, msg: &str) -> (res: Response)
    ensures
        res@ == error_reply(status, msg@),
{
    json_response(status, with(empty_object(), "error", from_text(msg)))
}

/// The reply to a request that is refused for want of valid credentials.
pub fn unauthorized(msg: &str) -> (res: Response)
    ensures
        res@ == refusal(msg@),
{
    error_response(UNAUTHORIZED, msg)
}

/// The reply when the database fails.
pub fn database_error() -> (res: Response)
    ensures
        res@ == database_failure(),
{
    error_response(INTERNAL_SERVER_ERROR, "数据库错误")
}

/// How a user is described to clients.
pub fn user_json(username: &str) -> (res: Value)
    ensures
        json(res) == user_object(username@),
{
    let user = with(empty_object(), "name", from_text(username));
    let user = with(user, "display_name", from_text(username));
    let user = with(user, "avatar", from_text(""));
    let user = with(user, "status", from_integer(1));
    with(user, "is_admin", from_bool(false))
}

} // verus!
