//! Logging in.
//!
//! A login runs three commands: it looks the user up, ends the user's earlier sessions and opens
//! a new one. [`login`], [`login_user`], [`login_cleared`] and [`login_stored`] decide what comes
//! before, between and after them.

use serde_json::Value;
use std::time::SystemTime;
use vstd::prelude::*;

use crate::clock::{is_reading, now, reading_stamp};
use crate::json::{empty_object, from_integer, from_text, get, json, with, Json};
use crate::password::{accepts, bcrypt_check, check_password};
use crate::reply::{
    database_error, database_failure, json_reply, json_response, refusal, unauthorized, user_json,
    user_object, Reply, Response, Step, OK,
};
use crate::store::{Command, CommandView, Found, UserRow, UserRowView};
use crate::token::{draw_token, is_drawn, is_token};

verus! {

/// How long a session lasts: three days.
pub const TOKEN_EXPIRE_SECS: i64 = 3 * 24 * 3600;

/// A login that waits for the user to be looked up.
#[derive(Debug)]
pub struct LoginLookup {
    pub username: String,
    pub password: String,
}

/// A [`LoginLookup`] as a mathematical value.
pub struct LoginLookupView {
    pub username: Seq<char>,
    pub password: Seq<char>,
}

impl View for LoginLookup {
    type V = LoginLookupView;

    open spec fn view(&self) -> LoginLookupView {
        LoginLookupView { username: self.username@, password: self.password@ }
    }
}

/// A login with the right password, which waits for the user's earlier sessions to end.
#[derive(Debug)]
pub struct LoginClear {
    pub username: String,
    pub user_id: i64,
}

/// A [`LoginClear`] as a mathematical value.
pub struct LoginClearView {
    pub username: Seq<char>,
    pub user_id: i64,
}

impl View for LoginClear {
    type V = LoginClearView;

    open spec fn view(&self) -> LoginClearView {
        LoginClearView { username: self.username@, user_id: self.user_id }
    }
}

/// A login that waits for its session to be stored.
#[derive(Debug)]
pub struct LoginStore {
    pub username: String,
    pub token: String,
    pub expires_at: i64,
}

/// A [`LoginStore`] as a mathematical value.
pub struct LoginStoreView {
    pub username: Seq<char>,
    pub token: Seq<char>,
    pub expires_at: i64,
}

impl View for LoginStore {
    type V = LoginStoreView;

    open spec fn view(&self) -> LoginStoreView {
        LoginStoreView {
            username: self.username@,
            token: self.token@,
            expires_at: self.expires_at,
        }
    }
}

/// The text under `key` in the body of a request; empty if there is none.
pub open spec fn text_member(body: Json, key: Seq<char>) -> Seq<char> {
    match body.member(key) {
        Some(Json::Text(text)) => text,
        _ => Seq::empty(),
    }
}

/// What to do about a login with this body.
pub open spec fn login_step(body: Json) -> Step<CommandView, LoginLookupView, Reply> {
    let username = text_member(body, "username"@);
    let password = text_member(body, "password"@);
    if username.len() == 0 || password.len() == 0 {
        Step::Reply(refusal("用户名或密码为空"@))
    } else {
        Step::Run(CommandView::FindUser { username }, LoginLookupView { username, password })
    }
}

/// What to do about a login once the user has been looked up and the password checked.
pub open spec fn login_checked_step(
    username: Seq<char>,
    found: Found<UserRowView>,
    check: Option<bool>,
) -> Step<CommandView, LoginClearView, Reply> {
    match found {
        Found::Failed => Step::Reply(database_failure()),
        Found::Missing => Step::Reply(refusal("用户名或密码错误"@)),
        Found::Row(row) => if row.enabled == 0 || !accepts(check) {
            Step::Reply(refusal("用户名或密码错误"@))
        } else {
            Step::Run(
                CommandView::DeleteUserSessions { user_id: row.id },
                LoginClearView { username, user_id: row.id },
            )
        },
    }
}

/// What to do about a login once the user has been looked up.
pub open spec fn login_user_step(lookup: LoginLookupView, found: Found<UserRowView>) -> Step<
    CommandView,
    LoginClearView,
    Reply,
> {
    let check = match found {
        Found::Row(row) => bcrypt_check(lookup.password, row.password_hash),
        _ => None,
    };
    login_checked_step(lookup.username, found, check)
}

/// The session of a login from `login_ip`, with this token, opened at `issued_at` and recorded at
/// `created_at`.
pub open spec fn login_session_step(
    clear: LoginClearView,
    login_ip: Seq<char>,
    token: Seq<char>,
    issued_at: i64,
    created_at: i64,
) -> (CommandView, LoginStoreView) {
    let expires_at = (issued_at + TOKEN_EXPIRE_SECS) as i64;
    (
        CommandView::InsertSession {
            token,
            user_id: clear.user_id,
            expires_at,
            login_ip,
            created_at,
        },
        LoginStoreView { username: clear.username, token, expires_at },
    )
}

/// The body of the reply to a login that has succeeded.
pub open spec fn login_object(store: LoginStoreView) -> Json {
    Json::Object(
        map![
            "access_token"@ => Json::Text(store.token),
            "type"@ => Json::Text("access_token"@),
            "user"@ => user_object(store.username),
            "expires_at"@ => Json::Integer(store.expires_at as int),
        ],
    )
}

/// The reply to a login, by whether its session was stored.
pub open spec fn login_reply(store: LoginStoreView, stored: bool) -> Reply {
    if stored {
        json_reply(OK, login_object(store))
    } else {
        database_failure()
    }
}

/// The text under `key` in the body of a request; empty if there is none.
fn member_text(body: &Value, key: &str) -> (res: String)
    ensures
        res@ == text_member(json(*body), key@),
{
    match get(body, key) {
        Some(value) => match value.as_str() {
            Some(text) => text.to_owned(),
            None => String::new(),
        },
        None => String::new(),
    }
}

/// Starts a login. A body without a user name or without a password is refused.
pub fn login(body: &Value) -> (res: Step<Command, LoginLookup, Response>)
    ensures
        res@ == login_step(json(*body)),
{
    let username = member_text(body, "username");
    let password = member_text(body, "password");
    if username.as_str().is_empty() || password.as_str().is_empty() {
        return Step::Reply(unauthorized("用户名或密码为空"));
    }
    Step::Run(
        Command::FindUser { username: username.clone() },
        LoginLookup { username, password },
    )
}

/// Goes on with a login once the user has been looked up and the password checked. An unknown
/// user, a disabled one and a wrong password are refused in the same words.
pub fn login_checked(username: String, found: Found<UserRow>, check: Option<bool>) -> (res: Step<
    Command,
    LoginClear,
    Response,
>)
    ensures
        res@ == login_checked_step(username@, found@, check),
{
    let row = match found {
        Found::Failed => return Step::Reply(database_error()),
        Found::Missing => return Step::Reply(unauthorized("用户名或密码错误")),
        Found::Row(row) => row,
    };
    let accepted = match check {
        Some(matches) => matches,
        None => false,
    };
    if row.enabled == 0 || !accepted {
        return Step::Reply(unauthorized("用户名或密码错误"));
    }
    Step::Run(
        Command::DeleteUserSessions { user_id: row.id },
        LoginClear { username, user_id: row.id },
    )
}

/// Goes on with a login once the user has been looked up: checks the password.
pub fn login_user(lookup: LoginLookup, found: Found<UserRow>) -> (res: Step<
    Command,
    LoginClear,
    Response,
>)
    ensures
        res@ == login_user_step(lookup@, found@),
{
    let check = match &found {
        Found::Row(row) => if row.enabled == 0 {
            None
        } else {
            check_password(lookup.password.as_str(), row.password_hash.as_str())
        },
        _ => None,
    };
    login_checked(lookup.username, found, check)
}

/// Opens the session of a login, with this token and these readings of the clock.
pub fn login_session(
    clear: LoginClear,
    login_ip: String,
    token: String,
    issued_at: i64,
    created_at: i64,
) -> (res: (Command, LoginStore))
    requires
        issued_at + TOKEN_EXPIRE_SECS <= i64::MAX,
    ensures
        (res.0@, res.1@) == login_session_step(clear@, login_ip@, token@, issued_at, created_at),
{
    let expires_at: i64 = issued_at + TOKEN_EXPIRE_SECS;
    (
        Command::InsertSession {
            token: token.clone(),
            user_id: clear.user_id,
            expires_at,
            login_ip,
            created_at,
        },
        LoginStore { username: clear.username, token, expires_at },
    )
}

/// Goes on with a login, by whether the user's earlier sessions have been ended: opens a session
/// under a fresh token, from now on. Where an earlier session may be left, the login fails, since a
/// user keeps the newest session only. Gives nothing if the clock is so far off that the session
/// would end after the last time stamp there is.
pub fn login_cleared(clear: LoginClear, cleared: bool, login_ip: String) -> (res: Option<
    Step<Command, LoginStore, Response>,
>)
    ensures
        match res {
            Some(Step::Reply(response)) => !cleared && response@ == database_failure(),
            Some(Step::Run(command, store)) => cleared && exists|
                token: Seq<char>,
                issued: SystemTime,
                created: SystemTime,
            |
                #![trigger is_drawn(token), is_reading(issued), is_reading(created)]
                {
                    &&& is_token(token)
                    &&& is_drawn(token)
                    &&& is_reading(issued)
                    &&& is_reading(created)
                    &&& reading_stamp(issued) + TOKEN_EXPIRE_SECS <= i64::MAX
                    &&& (command@, store@) == login_session_step(
                        clear@,
                        login_ip@,
                        token,
                        reading_stamp(issued) as i64,
                        reading_stamp(created) as i64,
                    )
                },
            None => cleared && exists|issued: SystemTime| #[trigger]
                is_reading(issued) && reading_stamp(issued) + TOKEN_EXPIRE_SECS > i64::MAX,
        },
{
    if !cleared {
        return Some(Step::Reply(database_error()));
    }
    let token = draw_token();
    let issued_at = now();
    let created_at = now();
    if issued_at > i64::MAX - TOKEN_EXPIRE_SECS {
        return None;
    }
    assert(is_token(token@));
    let (command, store) = login_session(clear, login_ip, token, issued_at, created_at);
    Some(Step::Run(command, store))
}

/// Ends a login by whether its session was stored.
pub fn login_stored(store: LoginStore, stored: bool) -> (res: Response)
    ensures
        res@ == login_reply(store@, stored),
{
    if !stored {
        return database_error();
    }
    let body = with(empty_object(), "access_token", from_text(store.token.as_str()));
    let body = with(body, "type", from_text("access_token"));
    let body = with(body, "user", user_json(store.username.as_str()));
    let body = with(body, "expires_at", from_integer(store.expires_at));
    json_response(OK, body)
}

} // verus!
