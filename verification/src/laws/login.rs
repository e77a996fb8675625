//! What holds of logging in.

use vstd::prelude::*;

use crate::json::Json;
use crate::login::{
    login_checked_step, login_reply, login_session_step, login_step, login_user_step,
    LoginClearView, LoginLookupView, LoginStoreView,
};
use crate::password::{accepts, bcrypt_check, is_hash_of};
use crate::reply::{Reply, Step};
use crate::runs::{login_run, LoginRun};
use crate::store::{CommandView, Found, Session, Store, UserRowView};
use crate::token::is_token;

verus! {

/// A login looks up the user name that was posted and remembers the password that was posted,
/// both as they stand in the body.
pub proof fn law_login_takes_name_and_password_as_posted(
    members: Map<Seq<char>, Json>,
    username: Seq<char>,
    password: Seq<char>,
)
    requires
        members.contains_key("username"@),
        members["username"@] == Json::Text(username),
        members.contains_key("password"@),
        members["password"@] == Json::Text(password),
        username.len() > 0,
        password.len() > 0,
    ensures
        login_step(Json::Object(members)) == Step::<CommandView, LoginLookupView, Reply>::Run(
            CommandView::FindUser { username },
            LoginLookupView { username, password },
        ),
{
}

/// A body without a user name or a password, or with one that is empty or no text, is refused.
pub proof fn law_login_without_name_or_password_is_refused(body: Json)
    requires
        !(body matches Json::Object(members) && {
            &&& members.contains_key("username"@)
            &&& members["username"@] matches Json::Text(username)
            &&& username.len() > 0
            &&& members.contains_key("password"@)
            &&& members["password"@] matches Json::Text(password)
            &&& password.len() > 0
        }),
    ensures
        login_step(body) == Step::<CommandView, LoginLookupView, Reply>::Reply(
            Reply {
                status: 401,
                body: Some(Json::Object(map!["error"@ => Json::Text("用户名或密码为空"@)])),
            },
        ),
{
}

/// A login goes on exactly for a user who is enabled and whose password was found to match: it
/// ends that user's sessions. All others are refused in the same words.
pub proof fn law_login_goes_on_by_the_check(
    username: Seq<char>,
    row: UserRowView,
    check: Option<bool>,
)
    ensures
        row.enabled != 0 && check == Some(true) ==> login_checked_step(
            username,
            Found::Row(row),
            check,
        ) == Step::<CommandView, LoginClearView, Reply>::Run(
            CommandView::DeleteUserSessions { user_id: row.id },
            LoginClearView { username, user_id: row.id },
        ),
        row.enabled == 0 || check != Some(true) ==> login_checked_step(
            username,
            Found::Row(row),
            check,
        ) == Step::<CommandView, LoginClearView, Reply>::Reply(
            Reply {
                status: 401,
                body: Some(Json::Object(map!["error"@ => Json::Text("用户名或密码错误"@)])),
            },
        ),
        login_checked_step(username, Found::Missing, check) == Step::<
            CommandView,
            LoginClearView,
            Reply,
        >::Reply(
            Reply {
                status: 401,
                body: Some(Json::Object(map!["error"@ => Json::Text("用户名或密码错误"@)])),
            },
        ),
        login_checked_step(username, Found::Failed, check) == Step::<
            CommandView,
            LoginClearView,
            Reply,
        >::Reply(
            Reply {
                status: 500,
                body: Some(Json::Object(map!["error"@ => Json::Text("数据库错误"@)])),
            },
        ),
        accepts(check) <==> check == Some(true),
{
}

/// The password that is checked is the one that was posted, against the hash of the user who was
/// looked up.
pub proof fn law_login_checks_the_posted_password(
    username: Seq<char>,
    password: Seq<char>,
    row: UserRowView,
)
    ensures
        ({
            let lookup = LoginLookupView { username, password };
            &&& login_user_step(lookup, Found::Row(row)) == login_checked_step(
                username,
                Found::Row(row),
                bcrypt_check(password, row.password_hash),
            )
            &&& login_user_step(lookup, Found::Missing) == login_checked_step(
                username,
                Found::Missing,
                None,
            )
            &&& login_user_step(lookup, Found::Failed) == login_checked_step(
                username,
                Found::Failed,
                None,
            )
        }),
{
}

/// The session of a login is that of the user, under the token, for 259200 seconds, which are three
/// days, and for the address that the login came from.
pub proof fn law_login_opens_a_session_for_three_days(
    username: Seq<char>,
    user_id: i64,
    login_ip: Seq<char>,
    token: Seq<char>,
    issued_at: i64,
    created_at: i64,
    expires_at: i64,
)
    requires
        expires_at == issued_at + 259200,
    ensures
        login_session_step(
            LoginClearView { username, user_id },
            login_ip,
            token,
            issued_at,
            created_at,
        ) == (
            CommandView::InsertSession { token, user_id, expires_at, login_ip, created_at },
            LoginStoreView { username, token, expires_at },
        ),
{
}

/// A login that has succeeded is answered with the token, the user and the end of the session; one
/// whose session was not stored, with the failure of the database.
pub proof fn law_login_is_answered_with_its_session(
    username: Seq<char>,
    token: Seq<char>,
    expires_at: i64,
)
    ensures
        login_reply(LoginStoreView { username, token, expires_at }, true) == (Reply {
            status: 200,
            body: Some(
                Json::Object(
                    map![
                        "access_token"@ => Json::Text(token),
                        "type"@ => Json::Text("access_token"@),
                        "user"@ => Json::Object(
                            map![
                                "name"@ => Json::Text(username),
                                "display_name"@ => Json::Text(username),
                                "avatar"@ => Json::Text(""@),
                                "status"@ => Json::Integer(1),
                                "is_admin"@ => Json::Bool(false),
                            ],
                        ),
                        "expires_at"@ => Json::Integer(expires_at as int),
                    ],
                ),
            ),
        }),
        login_reply(LoginStoreView { username, token, expires_at }, false) == (Reply {
            status: 500,
            body: Some(Json::Object(map!["error"@ => Json::Text("数据库错误"@)])),
        }),
{
}

/// What is stored for a password is a bcrypt hash at cost twelve that the password itself passes.
pub proof fn law_hash_is_passed_by_its_password(hash: Seq<char>, password: Seq<char>)
    ensures
        is_hash_of(hash, password) <==> {
            &&& bcrypt_check(password, hash) == Some(true)
            &&& hash.len() == 60
            &&& hash.take(7) == "$2b$12$"@
        },
{
    reveal_strlit("$2b$12$");
    if hash.len() == 60 {
        assert(hash.take(7) =~= hash.subrange(0, 7));
    }
}

/// A token is thirty-two lower-case hexadecimal digits, the thirteenth of which is a four.
pub proof fn law_token_is_a_random_uuid(token: Seq<char>)
    requires
        is_token(token),
    ensures
        token.len() == 32,
        forall|i: int|
            0 <= i < 32 ==> ('0' <= #[trigger] token[i] <= '9' || 'a' <= token[i] <= 'f'),
        token[12] == '4',
        token[16] == '8' || token[16] == '9' || token[16] == 'a' || token[16] == 'b',
{
}

/// A user who is enabled logs in with the user's name and a password that matches the stored hash:
/// the reply holds the token, and the session under the token is the user's only one.
pub proof fn law_user_logs_in_with_name_and_password(
    store: Store,
    id: i64,
    members: Map<Seq<char>, Json>,
    username: Seq<char>,
    password: Seq<char>,
    run: LoginRun,
    expires_at: i64,
    token: Seq<char>,
)
    requires
        store.is_valid(),
        store.users.contains_key(id),
        store.users[id].username == username,
        store.users[id].enabled != 0,
        bcrypt_check(password, store.users[id].password_hash) == Some(true),
        username.len() > 0,
        password.len() > 0,
        members.contains_key("username"@),
        members["username"@] == Json::Text(username),
        members.contains_key("password"@),
        members["password"@] == Json::Text(password),
        !run.lookup_fails && !run.clear_fails && !run.insert_fails,
        !store.sessions.contains_key(run.token),
        expires_at == run.issued_at + 259200,
    ensures
        ({
            let (after, reply) = login_run(store, Json::Object(members), run);
            &&& reply.status == 200
            &&& reply.body matches Some(Json::Object(answer))
            &&& answer.contains_key("access_token"@)
            &&& answer["access_token"@] == Json::Text(run.token)
            &&& answer.contains_key("expires_at"@)
            &&& answer["expires_at"@] == Json::Integer(run.issued_at + 259200)
            &&& after.sessions.contains_key(run.token)
            &&& after.sessions[run.token] == Session {
                user_id: id,
                expires_at,
                login_ip: run.login_ip,
                created_at: run.created_at,
            }
            &&& token != run.token && after.sessions.contains_key(token)
                ==> after.sessions[token].user_id != id
        }),
{
    assert(store.is_user(id, username));
    let found = store.user_id(username);
    assert(store.is_user(found, username));
    assert(store.users[found].username == store.users[id].username);
    law_login_takes_name_and_password_as_posted(members, username, password);
    reveal_strlit("access_token");
    reveal_strlit("type");
    reveal_strlit("user");
    reveal_strlit("expires_at");
    assert("type"@.len() == 4 && "user"@.len() == 4 && "user"@[0] != "type"@[0]);
    assert("access_token"@.len() == 12 && "expires_at"@.len() == 10);
}

/// A login succeeds only with the name of a user who is enabled and a password that matches the
/// user's hash, posted in a JSON object.
pub proof fn law_login_takes_a_matching_password(store: Store, body: Json, run: LoginRun)
    requires
        login_run(store, body, run).1.status == 200,
    ensures
        ({
            &&& body matches Json::Object(members)
            &&& members.contains_key("username"@)
            &&& members["username"@] matches Json::Text(username)
            &&& members.contains_key("password"@)
            &&& members["password"@] matches Json::Text(password)
            &&& exists|id: i64|
                {
                    &&& #[trigger] store.users.contains_key(id)
                    &&& store.users[id].username == username
                    &&& store.users[id].enabled != 0
                    &&& bcrypt_check(password, store.users[id].password_hash) == Some(true)
                }
        }),
{
    let username = body->Object_0["username"@]->Text_0;
    assert(store.is_user(store.user_id(username), username));
}

} // verus!
