//! What calls of the functions give, in terms of what they are given.

use axum::http::HeaderMap;
use bcrypt::BcryptError;
use serde_json::Value;
use vstd::prelude::*;

use crate::address::{client_ip, forwarded_for, normalize_ip, IpAddress};
use crate::address_book::{
    get_ab, get_ab_found, get_ab_parsed, get_ab_user, parse_ab_data, post_ab, post_ab_stored,
    post_ab_user, post_ab_user_at, BookLookup, BookPost, BookStore,
};
use crate::admin::{
    add_user, add_user_hashed, add_user_stored, set_password, set_password_hashed,
    set_user_enabled, user_changed, user_cleared, user_identified, AdminError, NewUser, UserChange,
    UserChanged,
};
use crate::clock::time_stamp;
use crate::headers::{bearer_token, first_values};
use crate::json::{json, parsed, written, Json};
use crate::laws::address::{law_mapped_v4_is_recorded_as_v4, law_v4_is_recorded_as_it_is};
use crate::laws::command_line::law_changes_of_the_users_are_named;
use crate::laws::headers::{
    law_bearer_token_is_the_text_behind_bearer, law_forwarded_address_is_the_first_item,
};
use crate::laws::text::{
    law_decimal_reads_back, law_first_item_ends_at_separator, law_text_occurs_between,
};
use crate::laws::users::law_typed_line_holds_the_password;
use crate::login::{
    login, login_checked, login_cleared, login_session, login_stored, login_user, LoginClear,
    LoginLookup, LoginStore,
};
use crate::options::{
    admin_cmd, parse_invocation, parse_options, password_prompts, read_options, read_pwd, texts,
    AdminCmd, AdminTask, Invocation, Options, OptionsView, UsageError, UsageErrorView,
};
use crate::password::{bcrypt_check, check_password, hash_password};
use crate::reply::{
    database_error, empty_response, error_response, json_response, unauthorized, user_json,
    Response, Step,
};
use crate::server::{listen_address, open_db, Endpoint, Method, OpenStep};
use crate::session::{
    current_user, current_user_found, login_options, logout, logout_done, session_user,
    session_user_at, verify_session, verify_session_at, verify_session_found, SessionEnd,
    SessionLookup, SessionUser,
};
use crate::store::{schema, Binding, Command, Found, GrantRow, SessionRow, UserRow};
use crate::text::{decimal, is_white_space, item_in_front, signed_decimal};

verus! {

/// [`login`] looks up the user name that the body holds, and keeps the password that it holds.
pub proof fn law_login_looks_up_the_posted_name(
    body: &Value,
    members: Map<Seq<char>, Json>,
    username: Seq<char>,
    password: Seq<char>,
    res: Step<Command, LoginLookup, Response>,
)
    requires
        call_ensures(login, (body,), res),
        json(*body) == Json::Object(members),
        members.contains_key("username"@),
        members["username"@] == Json::Text(username),
        members.contains_key("password"@),
        members["password"@] == Json::Text(password),
        username.len() > 0,
        password.len() > 0,
    ensures
        ({
            &&& res matches Step::Run(Command::FindUser { username: name }, lookup)
            &&& name@ == username
            &&& lookup.username@ == username
            &&& lookup.password@ == password
        }),
{
}

/// [`login_user`] goes on for a user who is enabled and whose hash the password passes, and for
/// nobody else.
pub proof fn law_login_goes_on_with_the_matching_password(
    lookup: LoginLookup,
    row: UserRow,
    res: Step<Command, LoginClear, Response>,
)
    requires
        call_ensures(login_user, (lookup, Found::Row(row)), res),
    ensures
        row.enabled != 0 && bcrypt_check(lookup.password@, row.password_hash@) == Some(true) ==> {
            &&& res matches Step::Run(Command::DeleteUserSessions { user_id }, clear)
            &&& user_id == row.id
            &&& clear.username@ == lookup.username@
            &&& clear.user_id == row.id
        },
        row.enabled == 0 || bcrypt_check(lookup.password@, row.password_hash@) != Some(true) ==> {
            &&& res matches Step::Reply(response)
            &&& response.status == 401
            &&& response.body matches Some(body)
            &&& json(body) == Json::Object(map!["error"@ => Json::Text("用户名或密码错误"@)])
        },
{
}

/// [`login_checked`] goes on for a user who is enabled and whose password was found to match.
pub proof fn law_checked_login_goes_on_by_the_check(
    username: String,
    row: UserRow,
    check: Option<bool>,
    res: Step<Command, LoginClear, Response>,
)
    requires
        call_ensures(login_checked, (username, Found::Row(row), check), res),
    ensures
        row.enabled != 0 && check == Some(true) ==> {
            &&& res matches Step::Run(Command::DeleteUserSessions { user_id }, clear)
            &&& user_id == row.id
            &&& clear.username@ == username@
            &&& clear.user_id == row.id
        },
        row.enabled == 0 || check != Some(true) ==> (res matches Step::Reply(response)
            && response.status == 401),
{
}

/// [`login_session`] opens a session of the user, under the token, for three days and for the
/// address of the login.
pub proof fn law_session_has_the_terms_of_its_login(
    clear: LoginClear,
    login_ip: String,
    token: String,
    issued_at: i64,
    created_at: i64,
    res: (Command, LoginStore),
)
    requires
        call_ensures(login_session, (clear, login_ip, token, issued_at, created_at), res),
        issued_at + 259200 <= i64::MAX,
    ensures
        ({
            &&& res.0 matches Command::InsertSession {
                token: stored,
                user_id,
                expires_at,
                login_ip: address,
                created_at: time,
            }
            &&& stored@ == token@
            &&& user_id == clear.user_id
            &&& expires_at == issued_at + 259200
            &&& address@ == login_ip@
            &&& time == created_at
        }),
        res.1.username@ == clear.username@,
        res.1.token@ == token@,
        res.1.expires_at == issued_at + 259200,
{
}

/// [`login_cleared`] goes on only where the earlier sessions have ended. The session that it opens
/// is that of the user, for the address of the login, and the token is the one that the reply will
/// hold.
pub proof fn law_login_opens_its_session_once_cleared(
    clear: LoginClear,
    cleared: bool,
    login_ip: String,
    res: Option<Step<Command, LoginStore, Response>>,
)
    requires
        call_ensures(login_cleared, (clear, cleared, login_ip), res),
    ensures
        !cleared ==> {
            &&& res matches Some(Step::Reply(response))
            &&& response.status == 500
        },
        cleared && res is Some ==> {
            &&& res matches Some(
                Step::Run(
                    Command::InsertSession {
                        token,
                        user_id,
                        expires_at,
                        login_ip: address,
                        created_at: _,
                    },
                    store,
                ),
            )
            &&& token@.len() == 32
            &&& store.token@ == token@
            &&& store.username@ == clear.username@
            &&& store.expires_at == expires_at
            &&& user_id == clear.user_id
            &&& address@ == login_ip@
        },
{
}

/// [`login_stored`] answers with the token, the user and the end of the session.
pub proof fn law_login_is_answered(store: LoginStore, stored: bool, res: Response)
    requires
        call_ensures(login_stored, (store, stored), res),
    ensures
        !stored ==> res.status == 500,
        stored ==> {
            &&& res.status == 200
            &&& res.body matches Some(body)
            &&& json(body) matches Json::Object(members)
            &&& members.dom() == set!["access_token"@, "type"@, "user"@, "expires_at"@]
            &&& members["access_token"@] == Json::Text(store.token@)
            &&& members["type"@] == Json::Text("access_token"@)
            &&& members["expires_at"@] == Json::Integer(store.expires_at as int)
            &&& members["user"@] matches Json::Object(user)
            &&& user.contains_key("name"@)
            &&& user["name"@] == Json::Text(store.username@)
        },
{
    reveal_strlit("access_token");
    reveal_strlit("type");
    reveal_strlit("user");
    reveal_strlit("expires_at");
    reveal_strlit("name");
    reveal_strlit("display_name");
    reveal_strlit("avatar");
    reveal_strlit("status");
    reveal_strlit("is_admin");
    assert("type"@.len() == 4 && "user"@.len() == 4 && "user"@[0] != "type"@[0]);
    assert("access_token"@.len() == 12 && "expires_at"@.len() == 10);
    assert("name"@.len() == 4 && "display_name"@.len() == 12 && "is_admin"@.len() == 8);
    assert("avatar"@.len() == 6 && "status"@.len() == 6);
}

/// [`bearer_token`] gives the text behind `Bearer `, without the spaces and tabs around it.
pub proof fn law_token_is_read_out_of_the_header(
    headers: &HeaderMap,
    front: Seq<char>,
    token: Seq<char>,
    back: Seq<char>,
    res: Option<String>,
)
    requires
        call_ensures(bearer_token, (headers,), res),
        first_values(*headers).contains_key("authorization"@),
        ({
            let text = "Bearer "@ + front + token + back;
            let bytes = first_values(*headers)["authorization"@];
            &&& bytes.len() == text.len()
            &&& forall|i: int| 0 <= i < bytes.len() ==> #[trigger] bytes[i] as int == text[i] as int
        }),
        forall|i: int| 0 <= i < front.len() ==> #[trigger] front[i] == ' ' || front[i] == '\t',
        forall|i: int| 0 <= i < back.len() ==> #[trigger] back[i] == ' ' || back[i] == '\t',
        forall|i: int|
            0 <= i < token.len() ==> ' ' <= #[trigger] token[i] <= '~' || token[i] == '\t',
        token.len() > 0 ==> token[0] != ' ' && token[0] != '\t' && token.last() != ' '
            && token.last() != '\t',
    ensures
        res matches Some(found) && found@ == token,
{
    law_bearer_token_is_the_text_behind_bearer(first_values(*headers), front, token, back);
}

/// [`forwarded_for`] gives the first item of the header if the proxy is trusted, and nothing if
/// not.
pub proof fn law_forwarded_address_is_read_out_of_the_header(
    headers: &HeaderMap,
    trusted_proxy: bool,
    front: Seq<char>,
    item: Seq<char>,
    back: Seq<char>,
    tail: Seq<char>,
    res: Option<String>,
)
    requires
        call_ensures(forwarded_for, (headers, trusted_proxy), res),
        first_values(*headers).contains_key("x-forwarded-for"@),
        ({
            let text = front + item + back + tail;
            let bytes = first_values(*headers)["x-forwarded-for"@];
            &&& bytes.len() == text.len()
            &&& forall|i: int| 0 <= i < bytes.len() ==> #[trigger] bytes[i] as int == text[i] as int
        }),
        forall|i: int| 0 <= i < front.len() ==> #[trigger] front[i] == ' ' || front[i] == '\t',
        forall|i: int| 0 <= i < back.len() ==> #[trigger] back[i] == ' ' || back[i] == '\t',
        forall|i: int|
            0 <= i < item.len() ==> ' ' <= #[trigger] item[i] <= '~' || item[i] == '\t',
        forall|i: int|
            0 <= i < tail.len() ==> ' ' <= #[trigger] tail[i] <= '~' || tail[i] == '\t',
        forall|i: int| 0 <= i < item.len() ==> #[trigger] item[i] != ',',
        item.len() > 0 ==> item[0] != ' ' && item[0] != '\t' && item.last() != ' ' && item.last()
            != '\t',
        tail.len() > 0 ==> tail[0] == ',',
    ensures
        trusted_proxy ==> (res matches Some(found) && found@ == item),
        !trusted_proxy ==> res is None,
{
    law_forwarded_address_is_the_first_item(first_values(*headers), front, item, back, tail);
}

/// [`client_ip`] and [`normalize_ip`] keep an address of version 4 as it is.
pub proof fn law_client_of_version_4_is_recorded(
    bytes: [u8; 4],
    peer: IpAddress,
    normal: IpAddress,
    forwarded: IpAddress,
    direct: IpAddress,
)
    requires
        call_ensures(normalize_ip, (IpAddress::V4(bytes),), normal),
        call_ensures(client_ip, (Some(IpAddress::V4(bytes)), peer), forwarded),
        call_ensures(client_ip, (None, IpAddress::V4(bytes)), direct),
    ensures
        normal == IpAddress::V4(bytes),
        forwarded == IpAddress::V4(bytes),
        direct == IpAddress::V4(bytes),
{
    law_v4_is_recorded_as_it_is(bytes, normal);
    law_v4_is_recorded_as_it_is(bytes, forwarded);
    law_v4_is_recorded_as_it_is(bytes, direct);
}

/// [`client_ip`] records `::ffff:a.b.c.d` as `a.b.c.d`, forwarded or not.
pub proof fn law_mapped_client_is_recorded(
    groups: [u16; 8],
    bytes: [u8; 4],
    peer: IpAddress,
    forwarded: IpAddress,
    direct: IpAddress,
)
    requires
        call_ensures(client_ip, (Some(IpAddress::V6(groups)), peer), forwarded),
        call_ensures(client_ip, (None, IpAddress::V6(groups)), direct),
        forall|i: int| 0 <= i < 5 ==> #[trigger] groups@[i] == 0,
        groups@[5] == 0xffff,
        groups@[6] == bytes@[0] * 256 + bytes@[1],
        groups@[7] == bytes@[2] * 256 + bytes@[3],
    ensures
        forwarded matches IpAddress::V4(kept) && kept@ == bytes@,
        direct matches IpAddress::V4(kept) && kept@ == bytes@,
{
    let (a, b, c, d) = (bytes@[0], bytes@[1], bytes@[2], bytes@[3]);
    law_mapped_v4_is_recorded_as_v4(groups, a, b, c, d, forwarded);
    law_mapped_v4_is_recorded_as_v4(groups, a, b, c, d, direct);
}

/// [`parse_ab_data`] gives the text of what stands under `data`, if that is an array or a text.
pub proof fn law_text_of_the_posted_book(
    body: &Value,
    members: Map<Seq<char>, Json>,
    res: Option<String>,
)
    requires
        call_ensures(parse_ab_data, (body,), res),
        json(*body) == Json::Object(members),
    ensures
        members.contains_key("data"@) && (members["data"@] is Array || members["data"@] is Text)
            ==> (res matches Some(text) && text@ == written(members["data"@])),
        !(members.contains_key("data"@) && (members["data"@] is Array || members["data"@] is Text))
            ==> res is None,
{
}

/// [`post_ab`] keeps the text of the posted book, for the session of the token of the request.
pub proof fn law_posted_book_is_kept_as_text(
    headers: &HeaderMap,
    body: &Value,
    members: Map<Seq<char>, Json>,
    token: Option<String>,
    res: Step<Command, BookPost, Response>,
)
    requires
        call_ensures(post_ab, (headers, body), res),
        call_ensures(bearer_token, (headers,), token),
        json(*body) == Json::Object(members),
        members.contains_key("data"@),
        members["data"@] is Array || members["data"@] is Text,
    ensures
        token matches Some(carried) ==> {
            &&& res matches Step::Run(Command::FindSession { token: sought }, post)
            &&& sought@ == carried@
            &&& post.data@ == written(members["data"@])
        },
        token is None ==> (res matches Step::Reply(response) && response.status == 401),
{
}

/// [`post_ab_user_at`] and [`get_ab_user`] go on with the book of the user of the session.
pub proof fn law_book_is_the_users_own(
    post: BookPost,
    user: SessionUser,
    updated_at: i64,
    stored: Step<Command, BookStore, Response>,
    looked_up: Step<Command, BookLookup, Response>,
)
    requires
        call_ensures(post_ab_user_at, (post, Found::Row(user), updated_at), stored),
        call_ensures(get_ab_user, (Found::Row(user),), looked_up),
    ensures
        ({
            &&& stored matches Step::Run(
                Command::SaveBook { user_id, data, updated_at: time },
                _,
            )
            &&& user_id == user.user_id
            &&& data@ == post.data@
            &&& time == updated_at
        }),
        looked_up matches Step::Run(Command::FindBook { user_id }, _) && user_id == user.user_id,
{
}

/// [`get_ab_found`] and [`get_ab_parsed`] answer with the array that is stored, under `data`.
pub proof fn law_stored_book_is_answered(
    text: String,
    value: Value,
    found: Response,
    read: Response,
)
    requires
        call_ensures(get_ab_found, (Found::Row(text),), found),
        call_ensures(get_ab_parsed, (Some(value),), read),
    ensures
        ({
            &&& found.status == 200
            &&& found.body matches Some(body)
            &&& json(body) matches Json::Object(members)
            &&& members.dom() == set!["data"@]
            &&& members["data"@] is Array
            &&& parsed(text@) matches Some(Json::Array(items)) ==> members["data"@] == Json::Array(
                items,
            )
        }),
        ({
            &&& read.status == 200
            &&& read.body matches Some(body)
            &&& json(body) matches Json::Object(members)
            &&& members.dom() == set!["data"@]
            &&& members["data"@] is Array
            &&& json(value) is Array ==> members["data"@] == json(value)
        }),
{
}

/// [`post_ab_stored`] answers without a body where the book was stored.
pub proof fn law_storing_is_answered(store: BookStore, stored: bool, res: Response)
    requires
        call_ensures(post_ab_stored, (store, stored), res),
    ensures
        stored ==> res.status == 200 && res.body is None,
        !stored ==> res.status == 500,
{
}

/// [`current_user`], [`get_ab`] and [`logout`] look for the session of the token of the request.
pub proof fn law_request_looks_for_its_session(
    headers: &HeaderMap,
    token: Option<String>,
    asked: Step<Command, SessionLookup, Response>,
    book: Step<Command, SessionLookup, Response>,
    ended: Step<Command, SessionEnd, Response>,
)
    requires
        call_ensures(bearer_token, (headers,), token),
        call_ensures(current_user, (headers,), asked),
        call_ensures(get_ab, (headers,), book),
        call_ensures(logout, (headers,), ended),
    ensures
        token matches Some(carried) ==> {
            &&& asked matches Step::Run(Command::FindSession { token: sought }, _)
            &&& sought@ == carried@
            &&& book matches Step::Run(Command::FindSession { token: wanted }, _)
            &&& wanted@ == carried@
            &&& ended matches Step::Run(Command::DeleteSession { token: deleted }, _)
            &&& deleted@ == carried@
        },
        token is None ==> {
            &&& asked matches Step::Reply(first)
            &&& first.status == 401
            &&& book matches Step::Reply(second)
            &&& second.status == 401
            &&& ended matches Step::Reply(third)
            &&& third.status == 401
        },
{
}

/// [`session_user_at`] gives the user of a session that is valid, and [`current_user_found`]
/// answers with that user's name.
pub proof fn law_session_gives_its_user(
    row: SessionRow,
    now: i64,
    user: SessionUser,
    res: Found<SessionUser>,
    answer: Response,
)
    requires
        call_ensures(session_user_at, (Found::Row(row), now), res),
        call_ensures(current_user_found, (Found::Row(user),), answer),
    ensures
        row.enabled != 0 && now <= row.expires_at ==> {
            &&& res matches Found::Row(found)
            &&& found.username@ == row.username@
            &&& found.user_id == row.user_id
        },
        row.enabled == 0 || now > row.expires_at ==> res is Missing,
        ({
            &&& answer.status == 200
            &&& answer.body matches Some(body)
            &&& json(body) == Json::Object(
                map![
                    "name"@ => Json::Text(user.username@),
                    "display_name"@ => Json::Text(user.username@),
                    "avatar"@ => Json::Text(""@),
                    "status"@ => Json::Integer(1),
                    "is_admin"@ => Json::Bool(false),
                ],
            )
        }),
{
}

/// [`verify_session`] looks for the session of the token, and [`verify_session_at`] finds it valid
/// exactly for an enabled user, in time and at the address of the login.
pub proof fn law_session_is_verified(
    token: String,
    command: Command,
    row: GrantRow,
    ip: &str,
    now: i64,
    res: Response,
)
    requires
        call_ensures(verify_session, (token,), command),
        call_ensures(verify_session_at, (Found::Row(row), ip, now), res),
    ensures
        command matches Command::FindGrant { token: sought } && sought@ == token@,
        ({
            &&& res.status == 200
            &&& res.body matches Some(body)
            &&& json(body) matches Json::Object(members)
            &&& members.contains_key("valid"@)
            &&& members["valid"@] == Json::Bool(
                row.enabled != 0 && now <= row.expires_at && ip@ == row.login_ip@,
            )
        }),
{
    reveal_strlit("valid");
    reveal_strlit("reason");
    assert("valid"@.len() == 5 && "reason"@.len() == 6);
}

/// [`logout_done`] answers without a body, and [`login_options`] with an empty list.
pub proof fn law_plain_answers(end: SessionEnd, done: Response, options: Response)
    requires
        call_ensures(logout_done, (end,), done),
        call_ensures(login_options, (), options),
    ensures
        done.status == 200 && done.body is None,
        options.status == 200,
        options.body matches Some(body) && json(body) == Json::Array(Seq::empty()),
{
}

/// [`admin_cmd`] hands on the name that was given and the password that was typed in, in full.
pub proof fn law_task_holds_name_and_password(
    cmd: AdminCmd,
    username: &str,
    passwords: &[String],
    res: Result<AdminTask, AdminError>,
)
    requires
        call_ensures(admin_cmd, (cmd, username, passwords), res),
        passwords@.len() == cmd.prompts(),
    ensures
        cmd == AdminCmd::AddUser && passwords@[0]@ == passwords@[1]@ ==> {
            &&& res matches Ok(AdminTask::AddUser { username: name, password })
            &&& name@ == username@
            &&& password@ == passwords@[0]@
        },
        cmd == AdminCmd::AddUser && passwords@[0]@ != passwords@[1]@ ==> res matches Err(
            AdminError::PasswordMismatch,
        ),
        cmd == AdminCmd::SetPassword ==> {
            &&& res matches Ok(AdminTask::SetPassword { username: name, password })
            &&& name@ == username@
            &&& password@ == passwords@[0]@
        },
        cmd == AdminCmd::EnableUser ==> {
            &&& res matches Ok(AdminTask::SetEnabled { username: name, enabled })
            &&& name@ == username@
            &&& enabled
        },
        cmd == AdminCmd::DisableUser ==> {
            &&& res matches Ok(AdminTask::SetEnabled { username: name, enabled })
            &&& name@ == username@
            &&& !enabled
        },
{
    assert(texts(passwords@).len() == passwords@.len());
    if cmd == AdminCmd::AddUser {
        assert(texts(passwords@)[1] == passwords@[1]@);
    }
    if passwords@.len() > 0 {
        assert(texts(passwords@)[0] == passwords@[0]@);
    }
}

/// [`read_pwd`] gives the typed line without the white space around it, and [`password_prompts`]
/// asks for the password of a new user twice.
pub proof fn law_typed_line_is_read(
    line: &str,
    front: Seq<char>,
    password: Seq<char>,
    back: Seq<char>,
    res: String,
    cmd: AdminCmd,
    prompts: usize,
)
    requires
        call_ensures(read_pwd, (line,), res),
        call_ensures(password_prompts, (cmd,), prompts),
        line@ == front + password + back,
        forall|i: int| 0 <= i < front.len() ==> is_white_space(#[trigger] front[i]),
        forall|i: int| 0 <= i < back.len() ==> is_white_space(#[trigger] back[i]),
        password.len() > 0 ==> !is_white_space(password[0]) && !is_white_space(password.last()),
    ensures
        res@ == password,
        prompts == if cmd == AdminCmd::AddUser {
            2int
        } else if cmd == AdminCmd::SetPassword {
            1
        } else {
            0
        },
{
    law_typed_line_holds_the_password(front, password, back);
}

/// [`add_user_hashed`], [`set_password_hashed`] and [`set_user_enabled`] change the user of the
/// given name, and write what they are given.
pub proof fn law_users_are_changed_as_told(
    username: &str,
    password_hash: String,
    created_at: i64,
    enabled: bool,
    add: (Command, NewUser),
    set: (Command, UserChange),
    mark: (Command, UserChange),
)
    requires
        call_ensures(add_user_hashed, (username, password_hash, created_at), add),
        call_ensures(set_password_hashed, (username, password_hash), set),
        call_ensures(set_user_enabled, (username, enabled), mark),
    ensures
        ({
            &&& add.0 matches Command::InsertUser {
                username: name,
                password_hash: hash,
                created_at: time,
            }
            &&& name@ == username@
            &&& hash@ == password_hash@
            &&& time == created_at
            &&& add.1.username@ == username@
        }),
        ({
            &&& set.0 matches Command::SetPasswordHash { username: name, password_hash: hash }
            &&& name@ == username@
            &&& hash@ == password_hash@
            &&& set.1.username@ == username@
        }),
        ({
            &&& mark.0 matches Command::SetEnabled { username: name, enabled: number }
            &&& name@ == username@
            &&& number == if enabled {
                1int
            } else {
                0
            }
            &&& mark.1.username@ == username@
        }),
{
}

/// [`add_user_stored`] says that the name is taken where the refusal speaks of `UNIQUE`, and passes
/// on any other refusal.
pub proof fn law_addition_is_taken_or_refused(
    user: NewUser,
    stored: Result<(), String>,
    before: Seq<char>,
    behind: Seq<char>,
    res: Result<(), AdminError>,
)
    requires
        call_ensures(add_user_stored, (user, stored), res),
    ensures
        stored is Ok ==> res is Ok,
        stored matches Err(reason) ==> {
            &&& res is Err
            &&& reason@ == before + "UNIQUE"@ + behind ==> (res matches Err(
                AdminError::UserExists(name),
            ) && name@ == user.username@)
            &&& (forall|a: Seq<char>, b: Seq<char>| reason@ != #[trigger] (a + "UNIQUE"@ + b))
                ==> (res matches Err(AdminError::Database(words)) && words@ == reason@)
        },
{
    if let Err(reason) = stored {
        law_text_occurs_between(reason@, "UNIQUE"@);
        if reason@ == before + "UNIQUE"@ + behind {
            law_text_occurs_between(before + "UNIQUE"@ + behind, "UNIQUE"@);
        }
    }
}

/// [`user_changed`], [`user_identified`] and [`user_cleared`] go from the changed user to the end
/// of the user's sessions, and pass every failure on.
pub proof fn law_change_goes_through_or_fails(
    change: UserChange,
    stored: Result<u64, String>,
    found: Result<i64, String>,
    ended: Result<(), String>,
    state: UserChanged,
    changed: Result<(Command, UserChanged), AdminError>,
    identified: Result<Command, AdminError>,
    cleared: Result<(), AdminError>,
)
    requires
        call_ensures(user_changed, (change, stored), changed),
        call_ensures(user_identified, (state, found), identified),
        call_ensures(user_cleared, (ended,), cleared),
    ensures
        match stored {
            Ok(rows) => if rows == 0 {
                changed matches Err(AdminError::UserMissing(name)) && name@ == change.username@
            } else {
                changed matches Ok((Command::FindUserId { username }, _)) && username@
                    == change.username@
            },
            Err(reason) => changed matches Err(AdminError::Database(words)) && words@ == reason@,
        },
        match found {
            Ok(id) => identified matches Ok(Command::DeleteUserSessions { user_id }) && user_id
                == id,
            Err(reason) => identified matches Err(AdminError::Database(words)) && words@
                == reason@,
        },
        match ended {
            Ok(_) => cleared is Ok,
            Err(reason) => cleared matches Err(AdminError::Database(words)) && words@ == reason@,
        },
{
}

/// [`check_password`] says what bcrypt says of the password and the hash, and what
/// [`hash_password`] gives is passed by the password.
pub proof fn law_password_passes_its_hash(
    password: &str,
    hash: &str,
    check: Option<bool>,
    hashed: Result<String, BcryptError>,
)
    requires
        call_ensures(check_password, (password, hash), check),
        call_ensures(hash_password, (password,), hashed),
    ensures
        check == bcrypt_check(password@, hash@),
        hashed matches Ok(fresh) ==> bcrypt_check(password@, fresh@) == Some(true),
{
}

/// [`listen_address`] names the port on all interfaces, in decimal.
pub proof fn law_service_listens_on_the_port(port: i32, res: String)
    requires
        call_ensures(listen_address, (port,), res),
    ensures
        res@.len() > 8,
        res@.take(8) == "0.0.0.0:"@,
        signed_decimal(res@.skip(8)) == Some(port as int),
{
    reveal_strlit("0.0.0.0:");
    law_decimal_reads_back(port as int);
    assert(res@.take(8) =~= "0.0.0.0:"@);
    assert(res@.skip(8) =~= decimal(port as int));
}

/// [`open_db`] creates a file only where there is none, and then opens the database at the path and
/// runs the statements of [`schema`].
pub proof fn law_database_is_opened(
    path: &str,
    is_there: bool,
    statements: &'static str,
    res: Vec<OpenStep>,
)
    requires
        call_ensures(open_db, (path, is_there), res),
        call_ensures(schema, (), statements),
    ensures
        res@.len() == if is_there {
            2int
        } else {
            3
        },
        !is_there ==> (res@[0] matches OpenStep::CreateFile(file) && file@ == path@),
        res@[res@.len() - 2] matches OpenStep::Connect(url) && url@ == "sqlite://"@ + path@,
        res@[res@.len() - 1] matches OpenStep::Execute(text) && text@ == statements@,
{
    let steps = res@.map_values(|step: OpenStep| step@);
    assert(steps.len() == res@.len());
    assert(steps[0] == res@[0]@);
    assert(steps[res@.len() - 2] == res@[res@.len() - 2]@);
    assert(steps[res@.len() - 1] == res@[res@.len() - 1]@);
}

/// [`parse_options`] gives what was read from the first argument on, and the default port in place
/// of port zero.
pub proof fn law_options_are_those_that_were_read(
    args: &[String],
    options: OptionsView,
    res: Result<Options, UsageError>,
)
    requires
        call_ensures(parse_options, (args, 0), res),
        read_options(
            texts(args@),
            OptionsView { port: 21115, db_path: "api.sqlite3"@, trusted_proxy: false },
        ) == Ok::<_, UsageErrorView>(options),
    ensures
        ({
            &&& res matches Ok(read)
            &&& read.port == if options.port == 0 {
                21115int
            } else {
                options.port as int
            }
            &&& read.db_path@ == options.db_path
            &&& read.trusted_proxy == options.trusted_proxy
        }),
{
    assert(texts(args@).skip(0) =~= texts(args@));
}

/// [`parse_invocation`] finds a change of the users behind the program, and takes the user name
/// behind it as it is; where no change is named it asks for the service to run.
pub proof fn law_user_name_is_taken_as_it_is(args: &[String], res: Result<Invocation, UsageError>)
    requires
        call_ensures(parse_invocation, (args,), res),
        args@.len() > 1,
    ensures
        ({
            let name = args@[1]@;
            let named = name == "--add-user"@ || name == "--set-password"@ || name
                == "--disable-user"@ || name == "--enable-user"@;
            &&& named && args@.len() == 2 ==> (res matches Err(UsageError::MissingUsername))
            &&& named && res is Ok ==> ({
                &&& res matches Ok(Invocation::Admin { cmd, username, options: _ })
                &&& args@.len() > 2
                &&& username@ == args@[2]@
                &&& cmd == AdminCmd::AddUser <==> name == "--add-user"@
                &&& cmd == AdminCmd::SetPassword <==> name == "--set-password"@
                &&& cmd == AdminCmd::DisableUser <==> name == "--disable-user"@
                &&& cmd == AdminCmd::EnableUser <==> name == "--enable-user"@
            })
            &&& !named && res is Ok ==> (res matches Ok(Invocation::Serve { options: _ }))
        }),
{
    assert(texts(args@).len() == args@.len());
    assert(texts(args@)[1] == args@[1]@);
    law_changes_of_the_users_are_named(args@[1]@);
    if args@.len() > 2 {
        assert(texts(args@)[2] == args@[2]@);
    }
}

/// [`add_user`] and [`set_password`] write the name that they are given and a hash that the
/// password passes.
pub proof fn law_users_get_a_hash_of_the_password(
    username: &str,
    password: &str,
    add: Result<(Command, NewUser), AdminError>,
    set: Result<(Command, UserChange), AdminError>,
)
    requires
        call_ensures(add_user, (username, password), add),
        call_ensures(set_password, (username, password), set),
    ensures
        add matches Ok((command, user)) ==> {
            &&& command matches Command::InsertUser {
                username: name,
                password_hash: hash,
                created_at: _,
            }
            &&& name@ == username@
            &&& bcrypt_check(password@, hash@) == Some(true)
            &&& user.username@ == username@
        },
        set matches Ok((command, change)) ==> {
            &&& command matches Command::SetPasswordHash { username: name, password_hash: hash }
            &&& name@ == username@
            &&& bcrypt_check(password@, hash@) == Some(true)
            &&& change.username@ == username@
        },
        add matches Err(error) ==> error is Hashing,
        set matches Err(error) ==> error is Hashing,
{
}

/// [`session_user`] gives the user of the row or nobody, and nobody for a disabled user;
/// [`verify_session_found`] finds a session valid only for an enabled user at the address of the
/// login; [`post_ab_user`] stores the posted text for the user of the session.
pub proof fn law_whenever_it_is_asked(
    session: SessionRow,
    user: Found<SessionUser>,
    grant: GrantRow,
    ip: &str,
    verdict: Response,
    post: BookPost,
    owner: SessionUser,
    stored: Step<Command, BookStore, Response>,
)
    requires
        call_ensures(session_user, (Found::Row(session),), user),
        call_ensures(verify_session_found, (Found::Row(grant), ip), verdict),
        call_ensures(post_ab_user, (post, Found::Row(owner)), stored),
    ensures
        session.enabled == 0 ==> user is Missing,
        user matches Found::Row(found) ==> found.username@ == session.username@ && found.user_id
            == session.user_id,
        !(user is Failed),
        ({
            &&& verdict.status == 200
            &&& verdict.body matches Some(body)
            &&& json(body) matches Json::Object(members)
            &&& members.contains_key("valid"@)
            &&& members["valid"@] == Json::Bool(true) ==> grant.enabled != 0 && ip@
                == grant.login_ip@
        }),
        ({
            &&& stored matches Step::Run(Command::SaveBook { user_id, data, updated_at: _ }, _)
            &&& user_id == owner.user_id
            &&& data@ == post.data@
        }),
{
    reveal_strlit("valid");
    reveal_strlit("reason");
    assert("valid"@.len() == 5 && "reason"@.len() == 6);
}

/// The functions that make replies put the status and the body into them, and tell errors in words.
pub proof fn law_replies_are_made_as_told(
    status: u16,
    body: Value,
    msg: &str,
    with_body: Response,
    without: Response,
    error: Response,
    refused: Response,
    failed: Response,
    user: Value,
)
    requires
        call_ensures(json_response, (status, body), with_body),
        call_ensures(empty_response, (status,), without),
        call_ensures(error_response, (status, msg), error),
        call_ensures(unauthorized, (msg,), refused),
        call_ensures(database_error, (), failed),
        call_ensures(user_json, (msg,), user),
    ensures
        with_body.status == status,
        with_body.body matches Some(sent) && json(sent) == json(body),
        without.status == status && without.body is None,
        error.status == status,
        error.body matches Some(sent) && json(sent) == Json::Object(
            map!["error"@ => Json::Text(msg@)],
        ),
        refused.status == 401,
        refused.body matches Some(sent) && json(sent) == Json::Object(
            map!["error"@ => Json::Text(msg@)],
        ),
        failed.status == 500,
        failed.body matches Some(sent) && json(sent) == Json::Object(
            map!["error"@ => Json::Text("数据库错误"@)],
        ),
        json(user) == Json::Object(
            map![
                "name"@ => Json::Text(msg@),
                "display_name"@ => Json::Text(msg@),
                "avatar"@ => Json::Text(""@),
                "status"@ => Json::Integer(1),
                "is_admin"@ => Json::Bool(false),
            ],
        ),
{
}

/// Errors are put into these words, with the name or the argument at the end.
pub proof fn law_errors_are_put_into_words(
    error: &AdminError,
    words: String,
    usage: &UsageError,
    usage_words: String,
)
    requires
        call_ensures(AdminError::message, (error,), words),
        call_ensures(UsageError::message, (usage,), usage_words),
    ensures
        match *error {
            AdminError::Hashing(_) => true,
            AdminError::Database(reason) => words@ == reason@,
            AdminError::UserExists(username) => words@ == "用户已存在: "@ + username@,
            AdminError::UserMissing(username) => words@ == "用户不存在: "@ + username@,
            AdminError::PasswordMismatch => words@ == "两次输入的密码不一致"@,
        },
        match *usage {
            UsageError::MissingPort => usage_words@ == "缺少端口参数"@,
            UsageError::MissingDbPath => usage_words@ == "缺少数据库路径参数"@,
            UsageError::UnknownArgument(argument) => usage_words@ == "未知参数: "@ + argument@,
            UsageError::MissingUsername => usage_words@ == "缺少用户名"@,
        },
{
}

/// A command is run as its statement, with its values bound in their order.
pub proof fn law_command_is_its_statement_and_values(
    command: &Command,
    statement: &'static str,
    bindings: Vec<Binding>,
    i: int,
)
    requires
        call_ensures(Command::sql, (command,), statement),
        call_ensures(Command::bindings, (command,), bindings),
    ensures
        statement@ == command@.statement(),
        bindings@.len() == command@.bound().len(),
        0 <= i < bindings@.len() ==> bindings@[i]@ == command@.bound()[i],
{
    let bound = bindings@.map_values(|b: Binding| b@);
    assert(bound == command@.bound());
    if 0 <= i < bindings@.len() {
        assert(bound[i] == bindings@[i]@);
    }
}

/// An endpoint answers at its path, by its methods.
pub proof fn law_endpoint_answers_at_its_path(
    endpoint: Endpoint,
    path: &'static str,
    methods: Vec<Method>,
)
    requires
        call_ensures(Endpoint::path, (endpoint,), path),
        call_ensures(Endpoint::methods, (endpoint,), methods),
    ensures
        match endpoint {
            Endpoint::Login => path@ == "/api/login"@ && methods@ == seq![Method::Post],
            Endpoint::CurrentUser => path@ == "/api/currentUser"@ && methods@
                == seq![Method::Post],
            Endpoint::Logout => path@ == "/api/logout"@ && methods@ == seq![Method::Post],
            Endpoint::LoginOptions => path@ == "/api/login-options"@ && methods@
                == seq![Method::Get],
            Endpoint::AddressBook => path@ == "/api/ab"@ && methods@
                == seq![Method::Get, Method::Post],
            Endpoint::VerifySession => path@ == "/api/verify-session"@ && methods@
                == seq![Method::Post],
        },
{
}

/// [`item_in_front`] gives what stands in front of the first separator, or all of the text.
pub proof fn law_item_in_front_is_given(
    text: &str,
    separator: char,
    item: Seq<char>,
    rest: Seq<char>,
    res: &str,
)
    requires
        call_ensures(item_in_front, (text, separator), res),
        !item.contains(separator),
        text@ == item || text@ == item + seq![separator] + rest,
    ensures
        res@ == item,
{
    law_first_item_ends_at_separator(item, separator, rest);
}

/// [`time_stamp`] counts seconds since the epoch, from zero before it.
pub proof fn law_seconds_are_counted(n: u64, counted: i64, early: i64)
    requires
        call_ensures(time_stamp, (Some(n),), counted),
        call_ensures(time_stamp, (None,), early),
    ensures
        n <= i64::MAX ==> counted == n,
        early == 0,
{
}

} // verus!
