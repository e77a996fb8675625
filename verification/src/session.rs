//! Sessions: whom a token belongs to, and what may be asked with it.

use axum::http::HeaderMap;
use serde_json::Value;
use std::time::SystemTime;
use vstd::prelude::*;

use crate::clock::{is_reading, now, reading_stamp};
use crate::headers::{bearer, bearer_token, first_values};
use crate::json::{empty_array, empty_object, from_bool, from_text, json, with, Json};
use crate::reply::{
    database_error, database_failure, empty_reply, empty_response, json_reply, json_response,
    refusal, unauthorized, user_json, user_object, Reply, Response, Step, OK,
};
use crate::store::{Command, CommandView, Found, GrantRow, GrantRowView, SessionRow, SessionRowView};

verus! {

/// A request that waits for its session to be looked up.
#[derive(Debug)]
pub struct SessionLookup;

impl View for SessionLookup {
    type V = SessionLookup;

    open spec fn view(&self) -> SessionLookup {
        *self
    }
}

/// A request to end a session, which waits for the session to be deleted.
#[derive(Debug)]
pub struct SessionEnd;

impl View for SessionEnd {
    type V = SessionEnd;

    open spec fn view(&self) -> SessionEnd {
        *self
    }
}

/// The user that a valid session belongs to.
#[derive(Debug)]
pub struct SessionUser {
    pub username: String,
    pub user_id: i64,
}

/// A [`SessionUser`] as a mathematical value.
pub struct SessionUserView {
    pub username: Seq<char>,
    pub user_id: i64,
}

impl View for SessionUser {
    type V = SessionUserView;

    open spec fn view(&self) -> SessionUserView {
        SessionUserView { username: self.username@, user_id: self.user_id }
    }
}

/// The session is that of an enabled user and has not run out.
pub open spec fn is_live(enabled: i64, expires_at: i64, now: i64) -> bool {
    enabled != 0 && now <= expires_at
}

/// The user of a session, if the session is valid at the time `now`.
pub open spec fn valid_user(found: Found<SessionRowView>, now: i64) -> Found<SessionUserView> {
    match found {
        Found::Failed => Found::Failed,
        Found::Missing => Found::Missing,
        Found::Row(row) => if is_live(row.enabled, row.expires_at, now) {
            Found::Row(SessionUserView { username: row.username, user_id: row.user_id })
        } else {
            Found::Missing
        },
    }
}

/// What to do about a request that a session must stand behind.
pub open spec fn session_step(headers: Map<Seq<char>, Seq<u8>>) -> Step<
    CommandView,
    SessionLookup,
    Reply,
> {
    match bearer(headers) {
        Some(token) => Step::Run(CommandView::FindSession { token }, SessionLookup),
        None => Step::Reply(refusal("缺少凭证"@)),
    }
}

/// The reply about the current user, given the user of the session.
pub open spec fn current_user_reply(user: Found<SessionUserView>) -> Reply {
    match user {
        Found::Failed => database_failure(),
        Found::Missing => refusal("凭证无效"@),
        Found::Row(user) => json_reply(OK, user_object(user.username)),
    }
}

/// What to do about a logout.
pub open spec fn logout_step(headers: Map<Seq<char>, Seq<u8>>) -> Step<
    CommandView,
    SessionEnd,
    Reply,
> {
    match bearer(headers) {
        Some(token) => Step::Run(CommandView::DeleteSession { token }, SessionEnd),
        None => Step::Reply(refusal("缺少凭证"@)),
    }
}

/// The judgement that a session is not valid, and why.
pub open spec fn invalid_object(reason: Seq<char>) -> Json {
    Json::Object(map!["valid"@ => Json::Bool(false), "reason"@ => Json::Text(reason)])
}

/// The judgement that a session is valid.
pub open spec fn valid_object() -> Json {
    Json::Object(map!["valid"@ => Json::Bool(true)])
}

/// The reply to the question whether a session is valid at the time `now` for a client at `ip`.
pub open spec fn verify_reply(found: Found<GrantRowView>, ip: Seq<char>, now: i64) -> Reply {
    match found {
        Found::Failed => database_failure(),
        Found::Missing => json_reply(OK, invalid_object("not_found"@)),
        Found::Row(row) => json_reply(
            OK,
            if row.enabled == 0 {
                invalid_object("not_found"@)
            } else if row.expires_at < now {
                invalid_object("expired"@)
            } else if row.login_ip != ip {
                invalid_object("ip_mismatch"@)
            } else {
                valid_object()
            },
        ),
    }
}

/// The user of a session, if the session is valid at the time `now`.
pub fn session_user_at(found: Found<SessionRow>, now: i64) -> (res: Found<SessionUser>)
    ensures
        res@ == valid_user(found@, now),
{
    let row = match found {
        Found::Failed => return Found::Failed,
        Found::Missing => return Found::Missing,
        Found::Row(row) => row,
    };
    if row.enabled == 0 || row.expires_at < now {
        return Found::Missing;
    }
    Found::Row(SessionUser { username: row.username, user_id: row.user_id })
}

/// The user of a session, if the session is valid now.
pub fn session_user(found: Found<SessionRow>) -> (res: Found<SessionUser>)
    ensures
        exists|reading: SystemTime| #[trigger]
            is_reading(reading) && res@ == valid_user(found@, reading_stamp(reading) as i64),
{
    session_user_at(found, now())
}

/// Starts a request that a session must stand behind. A request without a bearer token is refused.
pub(crate) fn find_session(headers: &HeaderMap) -> (res: Step<Command, SessionLookup, Response>)
    ensures
        res@ == session_step(first_values(*headers)),
{
    match bearer_token(headers) {
        Some(token) => Step::Run(Command::FindSession { token }, SessionLookup),
        None => Step::Reply(unauthorized("缺少凭证")),
    }
}

/// Starts a request for the current user.
pub fn current_user(headers: &HeaderMap) -> (res: Step<Command, SessionLookup, Response>)
    ensures
        res@ == session_step(first_values(*headers)),
{
    find_session(headers)
}

/// Ends a request for the current user, given the user of the session.
pub fn current_user_found(user: Found<SessionUser>) -> (res: Response)
    ensures
        res@ == current_user_reply(user@),
{
    match user {
        Found::Failed => database_error(),
        Found::Missing => unauthorized("凭证无效"),
        Found::Row(user) => json_response(OK, user_json(user.username.as_str())),
    }
}

/// Starts a logout.
pub fn logout(headers: &HeaderMap) -> (res: Step<Command, SessionEnd, Response>)
    ensures
        res@ == logout_step(first_values(*headers)),
{
    match bearer_token(headers) {
        Some(token) => Step::Run(Command::DeleteSession { token }, SessionEnd),
        None => Step::Reply(unauthorized("缺少凭证")),
    }
}

/// Ends a logout, whatever came of the deletion.
pub fn logout_done(_end: SessionEnd) -> (res: Response)
    ensures
        res@ == empty_reply(OK),
{
    empty_response(OK)
}

/// The reply that lists the other ways to log in: there are none.
pub fn login_options() -> (res: Response)
    ensures
        res@ == json_reply(OK, Json::Array(Seq::empty())),
{
    json_response(OK, empty_array())
}

/// The judgement that a session is not valid, and why.
fn invalid_json(reason: &str) -> (res: Value)
    ensures
        json(res) == invalid_object(reason@),
{
    with(with(empty_object(), "valid", from_bool(false)), "reason", from_text(reason))
}

/// Starts the question whether a session is valid.
pub fn verify_session(token: String) -> (res: Command)
    ensures
        res@ == (CommandView::FindGrant { token: token@ }),
{
    Command::FindGrant { token }
}

/// Whether a session is valid at the time `now` for a client at `ip`.
pub fn verify_session_at(found: Found<GrantRow>, ip: &str, now: i64) -> (res: Response)
    ensures
        res@ == verify_reply(found@, ip@, now),
{
    let row = match found {
        Found::Failed => return database_error(),
        Found::Missing => return json_response(OK, invalid_json("not_found")),
        Found::Row(row) => row,
    };
    if row.enabled == 0 {
        return json_response(OK, invalid_json("not_found"));
    }
    if row.expires_at < now {
        return json_response(OK, invalid_json("expired"));
    }
    if row.login_ip != ip.to_owned() {
        return json_response(OK, invalid_json("ip_mismatch"));
    }
    json_response(OK, with(empty_object(), "valid", from_bool(true)))
}

/// Whether a session is valid now for a client at `ip`.
pub fn verify_session_found(found: Found<GrantRow>, ip: &str) -> (res: Response)
    ensures
        exists|reading: SystemTime| #[trigger]
            is_reading(reading) && res@ == verify_reply(found@, ip@, reading_stamp(reading) as i64),
{
    verify_session_at(found, ip, now())
}

} // verus!
