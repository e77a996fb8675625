//! What holds of the service as a whole, and in the modules below of each of its parts.

pub mod address;
pub mod address_book;
pub mod calls;
pub mod command_line;
pub mod headers;
pub mod json;
pub mod login;
pub mod reply;
pub mod service;
pub mod session;
pub mod text;
pub mod users;
pub mod views;

use vstd::prelude::*;

use crate::address::{is_normal_form, IpAddress};
use crate::address_book::{book_reply, posted_book, reads_back};
use crate::admin::{enabled_mark, AdminErrorView};
use crate::headers::bearer;
use crate::json::{parsed, written, Json};
use crate::login::{login_object, text_member, LoginStoreView, TOKEN_EXPIRE_SECS};
use crate::options::{named_port, options_of, read_options, OptionsView};
use crate::password::{accepts, bcrypt_check, is_hash_of};
use crate::reply::{empty_reply, json_reply, refusal, user_object, OK};
use crate::runs::{
    add_user_run, current_user_run, get_ab_run, login_run, logout_run, open_run, post_ab_run,
    set_enabled_run, set_password_run, steps_run, verify_run, ChangeRun, LoginRun, OpenRun,
};
use crate::session::{invalid_object, is_live, valid_object};
use crate::store::{
    act, act_all, apply, execute, Action, CommandView, Database, Found, Session, Store,
};
use crate::text::contains_text;

verus! {

/// There is one number for each user name.
proof fn user_id_is_unique(store: Store, id: i64, username: Seq<char>)
    requires
        store.is_valid(),
        store.is_user(id, username),
    ensures
        store.has_user(username),
        store.user_id(username) == id,
{
    assert(store.is_user(store.user_id(username), username));
    assert(store.users[store.user_id(username)].username == store.users[id].username);
}

/// Every command keeps the tables valid.
pub proof fn law_commands_keep_tables_valid(store: Store, command: CommandView, fails: bool)
    requires
        store.is_valid(),
    ensures
        execute(store, command, fails).0.is_valid(),
{
    let after = execute(store, command, fails).0;
    match command {
        CommandView::InsertUser { username, .. } => {
            assert forall|a: i64, b: i64|
                after.users.contains_key(a) && after.users.contains_key(b)
                    && #[trigger] after.users[a].username
                    == #[trigger] after.users[b].username implies a == b by {
                if a != b {
                    if store.users.contains_key(a) && store.users.contains_key(b) {
                        assert(store.users[a].username == store.users[b].username);
                    }
                    if store.users.contains_key(a) {
                        assert(store.users[a].username == username ==> store.is_user(a, username));
                    }
                    if store.users.contains_key(b) {
                        assert(store.users[b].username == username ==> store.is_user(b, username));
                    }
                }
            }
        },
        CommandView::SetPasswordHash { username, .. } | CommandView::SetEnabled { username, .. } => {
            if store.has_user(username) {
                let id = store.user_id(username);
                assert(store.is_user(id, username));
                assert forall|a: i64, b: i64|
                    after.users.contains_key(a) && after.users.contains_key(b)
                        && #[trigger] after.users[a].username
                        == #[trigger] after.users[b].username implies a == b by {
                    assert(store.users[a].username == after.users[a].username);
                    assert(store.users[b].username == after.users[b].username);
                }
                assert forall|n: i64| #[trigger] after.users.contains_key(n) implies n
                    < after.next_id by {
                    assert(store.users.contains_key(n));
                }
            }
        },
        _ => {},
    }
}

/// Whatever is run on valid tables, one thing after the other, the statements of the schema among
/// them, the tables stay valid.
proof fn actions_keep_tables_valid(store: Store, actions: Seq<Action>)
    requires
        store.is_valid(),
    ensures
        act_all(store, actions).is_valid(),
    decreases actions.len(),
{
    if actions.len() > 0 {
        match actions[0] {
            Action::Create { .. } => {},
            Action::Run { command, failed } => {
                law_commands_keep_tables_valid(store, command, failed);
            },
        }
        actions_keep_tables_valid(act(store, actions[0]), actions.skip(1));
    }
}

/// Once the statements of the schema have been run on a database without tables, the tables are
/// valid whatever is run after that, those statements among it: no two users share a number or a
/// name, no two sessions a token, no two address books a user.
pub proof fn law_created_tables_stay_valid(actions: Seq<Action>)
    ensures
        Database::empty().created(3).is_complete(),
        act_all(Database::empty().created(3).store(), actions).is_valid(),
{
    actions_keep_tables_valid(Database::empty().created(3).store(), actions);
}

/// To open a database creates tables in what its file holds, or in an empty file where there was
/// none; if it succeeds, all of them.
proof fn opening_creates_tables(
    file: Option<Database>,
    database: Database,
    path: Seq<char>,
    run: OpenRun,
)
    requires
        file == Some(database) || file is None && database == Database::empty(),
    ensures
        ({
            let (after, opened) = open_run(file, path, run);
            &&& opened ==> after == Some(database.created(3))
            &&& after == file || exists|statements: nat|
                after == Some(#[trigger] database.created(statements))
        }),
{
    reveal_with_fuel(steps_run, 4);
    assert(database.created(0) == database);
}

/// To open a database that is there changes none of its tables, however far it gets. A table that
/// is not there yet is there without a row once the database has been opened.
pub proof fn law_opening_keeps_rows(database: Database, path: Seq<char>, run: OpenRun)
    ensures
        ({
            let (after, opened) = open_run(Some(database), path, run);
            &&& after is Some
            &&& database.users is Some ==> after->0.users == database.users
            &&& database.sessions is Some ==> after->0.sessions == database.sessions
            &&& database.books is Some ==> after->0.books == database.books
            &&& opened ==> after->0.is_complete() && after->0 == database.created(3)
        }),
{
    opening_creates_tables(Some(database), database, path, run);
}

/// To open a database again that has been opened before leaves all rows as they are, whatever has
/// been stored in between.
pub proof fn law_opening_again_changes_nothing(store: Store, path: Seq<char>, run: OpenRun)
    ensures
        open_run(Some(Database::holding(store)), path, run).0 == Some(Database::holding(store)),
{
    law_opening_keeps_rows(Database::holding(store), path, run);
}

/// To open a database that is not there creates the tables, without a row.
pub proof fn law_new_database_is_empty(path: Seq<char>, run: OpenRun)
    requires
        open_run(None, path, run).1,
    ensures
        open_run(None, path, run).0 == Some(Database::holding(Store::empty())),
{
    opening_creates_tables(None, Database::empty(), path, run);
}

/// Valid tables stay valid through every request and every change of the users.
pub proof fn law_tables_stay_valid(
    store: Store,
    headers: Map<Seq<char>, Seq<u8>>,
    body: Json,
    username: Seq<char>,
    password_hash: Seq<char>,
    enabled: bool,
    login: LoginRun,
    change: ChangeRun,
    now: i64,
    stamp: i64,
    fails: bool,
    book_fails: bool,
    reason: Seq<char>,
)
    requires
        store.is_valid(),
    ensures
        login_run(store, body, login).0.is_valid(),
        logout_run(store, headers, fails).0.is_valid(),
        post_ab_run(store, headers, body, now, stamp, fails, book_fails).0.is_valid(),
        add_user_run(store, username, password_hash, stamp, fails, reason).0.is_valid(),
        set_password_run(store, username, password_hash, change).0.is_valid(),
        set_enabled_run(store, username, enabled, change).0.is_valid(),
{
    assert forall|command: CommandView, fails: bool| #[trigger] execute(
        store,
        command,
        fails,
    ).0.is_valid() by {
        law_commands_keep_tables_valid(store, command, fails);
    }
}

/// A login that succeeds leaves its user with one session, its own: earlier ones have ended.
pub proof fn law_login_leaves_one_session(store: Store, body: Json, run: LoginRun, token: Seq<char>)
    requires
        login_run(store, body, run).1.status == OK,
    ensures
        ({
            let after = login_run(store, body, run).0;
            let user_id = store.user_id(text_member(body, "username"@));
            (after.sessions.contains_key(token) && after.sessions[token].user_id == user_id)
                <==> token == run.token
        }),
{
}

/// A login does not succeed, and changes nothing, where the earlier sessions cannot be ended.
pub proof fn law_login_ends_earlier_sessions_first(store: Store, body: Json, run: LoginRun)
    requires
        run.clear_fails,
    ensures
        login_run(store, body, run).0 == store,
        login_run(store, body, run).1.status != OK,
{
}

/// A login that succeeds gives out the session that it opens.
pub proof fn law_login_opens_session(store: Store, body: Json, run: LoginRun)
    requires
        login_run(store, body, run).1.status == OK,
        run.issued_at + TOKEN_EXPIRE_SECS <= i64::MAX,
    ensures
        ({
            let (after, reply) = login_run(store, body, run);
            let username = text_member(body, "username"@);
            let expires_at = (run.issued_at + TOKEN_EXPIRE_SECS) as i64;
            &&& store.is_user(store.user_id(username), username)
            &&& after.sessions.contains_key(run.token)
            &&& after.sessions[run.token] == Session {
                user_id: store.user_id(username),
                expires_at,
                login_ip: run.login_ip,
                created_at: run.created_at,
            }
            &&& reply == json_reply(
                OK,
                login_object(LoginStoreView { username, token: run.token, expires_at }),
            )
        }),
{
    let username = text_member(body, "username"@);
    assert(store.has_user(username));
    assert(store.is_user(store.user_id(username), username));
}

/// The reply to a login that succeeds names the token, the user and the end of the session.
pub proof fn law_login_reply_names_session(store: Store, body: Json, run: LoginRun)
    requires
        login_run(store, body, run).1.status == OK,
        run.issued_at + TOKEN_EXPIRE_SECS <= i64::MAX,
    ensures
        ({
            let username = text_member(body, "username"@);
            let reply = login_run(store, body, run).1.body->0;
            &&& reply.member("access_token"@) == Some(Json::Text(run.token))
            &&& reply.member("expires_at"@) == Some(Json::Integer(run.issued_at + TOKEN_EXPIRE_SECS))
            &&& reply.member("user"@) is Some
            &&& reply.member("user"@)->0.member("name"@) == Some(Json::Text(username))
            &&& reply.member("user"@)->0.member("is_admin"@) == Some(Json::Bool(false))
        }),
{
    law_login_opens_session(store, body, run);
    reveal_strlit("access_token");
    reveal_strlit("type");
    reveal_strlit("user");
    reveal_strlit("expires_at");
    reveal_strlit("name");
    reveal_strlit("display_name");
    reveal_strlit("avatar");
    reveal_strlit("status");
    reveal_strlit("is_admin");
    // The names of the members are all different.
    assert("type"@.len() == 4 && "user"@.len() == 4 && "user"@[0] != "type"@[0]);
    assert("access_token"@.len() == 12 && "expires_at"@.len() == 10);
    assert("name"@.len() == 4 && "display_name"@.len() == 12 && "is_admin"@.len() == 8);
    assert("avatar"@.len() == 6 && "status"@.len() == 6);
}

/// A login touches no users, no address books and no sessions of other users.
pub proof fn law_login_leaves_others_alone(
    store: Store,
    body: Json,
    run: LoginRun,
    token: Seq<char>,
)
    ensures
        ({
            let after = login_run(store, body, run).0;
            &&& after.users == store.users
            &&& after.books == store.books
            &&& store.sessions.contains_key(token) && store.sessions[token].user_id
                != store.user_id(text_member(body, "username"@)) ==> {
                &&& after.sessions.contains_key(token)
                &&& after.sessions[token] == store.sessions[token]
            }
        }),
{
}

/// An unknown user, a disabled one and a wrong password are refused in the same words, and change
/// nothing.
pub proof fn law_bad_credentials_are_refused_alike(store: Store, body: Json, run: LoginRun)
    requires
        ({
            let username = text_member(body, "username"@);
            let password = text_member(body, "password"@);
            let user = store.users[store.user_id(username)];
            &&& username.len() > 0
            &&& password.len() > 0
            &&& !run.lookup_fails
            &&& {
                ||| !store.has_user(username)
                ||| user.enabled == 0
                ||| !accepts(bcrypt_check(password, user.password_hash))
            }
        }),
    ensures
        login_run(store, body, run) == (store, refusal("用户名或密码错误"@)),
{
}

/// A login without a user name or without a password is refused, and changes nothing.
pub proof fn law_login_needs_name_and_password(store: Store, body: Json, run: LoginRun)
    requires
        text_member(body, "username"@).len() == 0 || text_member(body, "password"@).len() == 0,
    ensures
        login_run(store, body, run) == (store, refusal("用户名或密码为空"@)),
{
}

/// The token of a login stands for its user for three days, to the second, as long as the session
/// and its user are in the tables as the login left them.
pub proof fn law_session_lasts_three_days(
    store: Store,
    body: Json,
    run: LoginRun,
    later_store: Store,
    headers: Map<Seq<char>, Seq<u8>>,
    now: i64,
)
    requires
        login_run(store, body, run).1.status == OK,
        run.issued_at + TOKEN_EXPIRE_SECS <= i64::MAX,
        bearer(headers) == Some(run.token),
        later_store.find_session(run.token) == login_run(store, body, run).0.find_session(
            run.token,
        ),
    ensures
        current_user_run(later_store, headers, now, false).1 == if now <= run.issued_at
            + TOKEN_EXPIRE_SECS {
            json_reply(OK, user_object(text_member(body, "username"@)))
        } else {
            refusal("凭证无效"@)
        },
{
    law_login_opens_session(store, body, run);
}

/// The session of a login is valid for three days, and only for a client at the address that the
/// login came from, as long as the session and its user are in the tables as the login left them.
pub proof fn law_session_is_bound_to_address(
    store: Store,
    body: Json,
    run: LoginRun,
    later_store: Store,
    ip: Seq<char>,
    now: i64,
)
    requires
        login_run(store, body, run).1.status == OK,
        run.issued_at + TOKEN_EXPIRE_SECS <= i64::MAX,
        later_store.find_grant(run.token) == login_run(store, body, run).0.find_grant(run.token),
    ensures
        verify_run(later_store, run.token, ip, now, false).1 == json_reply(
            OK,
            if now > run.issued_at + TOKEN_EXPIRE_SECS {
                invalid_object("expired"@)
            } else if ip != run.login_ip {
                invalid_object("ip_mismatch"@)
            } else {
                valid_object()
            },
        ),
{
    law_login_opens_session(store, body, run);
}

/// To ask whether a session is valid, for the current user or for an address book changes nothing.
pub proof fn law_questions_change_nothing(
    store: Store,
    headers: Map<Seq<char>, Seq<u8>>,
    token: Seq<char>,
    ip: Seq<char>,
    now: i64,
    fails: bool,
    book_fails: bool,
)
    ensures
        verify_run(store, token, ip, now, fails).0 == store,
        current_user_run(store, headers, now, fails).0 == store,
        get_ab_run(store, headers, now, fails, book_fails).0 == store,
{
}

/// A request without a bearer token is refused, and changes nothing.
pub proof fn law_token_is_needed(
    store: Store,
    headers: Map<Seq<char>, Seq<u8>>,
    body: Json,
    now: i64,
    updated_at: i64,
    fails: bool,
    book_fails: bool,
)
    requires
        bearer(headers) is None,
    ensures
        current_user_run(store, headers, now, fails) == (store, refusal("缺少凭证"@)),
        logout_run(store, headers, fails) == (store, refusal("缺少凭证"@)),
        get_ab_run(store, headers, now, fails, book_fails) == (store, refusal("缺少凭证"@)),
        post_ab_run(store, headers, body, now, updated_at, fails, book_fails) == (
            store,
            refusal("缺少凭证"@),
        ),
{
}

/// `token` stands for a user who is enabled, and has not run out at the time `now`.
pub open spec fn is_valid_token(store: Store, token: Seq<char>, now: i64) -> bool {
    store.has_session(token) && is_live(
        store.users[store.sessions[token].user_id].enabled,
        store.sessions[token].expires_at,
        now,
    )
}

/// A token that stands for no session, for one that has run out or for one of a disabled user is
/// refused, and changes nothing.
pub proof fn law_invalid_token_is_refused(
    store: Store,
    headers: Map<Seq<char>, Seq<u8>>,
    body: Json,
    now: i64,
    updated_at: i64,
    book_fails: bool,
)
    requires
        bearer(headers) is Some,
        !is_valid_token(store, bearer(headers)->0, now),
    ensures
        current_user_run(store, headers, now, false) == (store, refusal("凭证无效"@)),
        get_ab_run(store, headers, now, false, book_fails) == (store, refusal("凭证无效"@)),
        posted_book(body) is Some ==> post_ab_run(
            store,
            headers,
            body,
            now,
            updated_at,
            false,
            book_fails,
        ) == (store, refusal("凭证无效"@)),
{
}

/// A token that is refused to the user is not valid for any address.
pub proof fn law_invalid_token_is_not_verified(
    store: Store,
    token: Seq<char>,
    ip: Seq<char>,
    now: i64,
)
    requires
        !is_valid_token(store, token, now),
    ensures
        ({
            let reply = verify_run(store, token, ip, now, false).1;
            ||| reply == json_reply(OK, invalid_object("not_found"@))
            ||| reply == json_reply(OK, invalid_object("expired"@))
        }),
{
}

/// A logout ends its session and no other, and says so whatever came of it.
pub proof fn law_logout_ends_session(
    store: Store,
    headers: Map<Seq<char>, Seq<u8>>,
    fails: bool,
    now: i64,
)
    requires
        bearer(headers) is Some,
    ensures
        ({
            let (after, reply) = logout_run(store, headers, fails);
            &&& reply.status == OK && reply.body is None
            &&& !fails ==> after == Store {
                sessions: store.sessions.remove(bearer(headers)->0),
                ..store
            }
            &&& !fails ==> !is_valid_token(after, bearer(headers)->0, now)
        }),
{
}

/// A change of a user, of one who exists, keeps the user's name and number.
proof fn change_keeps_user(store: Store, username: Seq<char>, command: CommandView)
    requires
        store.is_valid(),
        store.has_user(username),
        (command matches CommandView::SetPasswordHash { username: name, .. } && name == username)
            || (command matches CommandView::SetEnabled { username: name, .. } && name == username),
    ensures
        apply(store, command) is Some,
        apply(store, command)->0.is_valid(),
        apply(store, command)->0.is_user(store.user_id(username), username),
        apply(store, command)->0.user_id(username) == store.user_id(username),
{
    let id = store.user_id(username);
    assert(store.is_user(id, username));
    let after = apply(store, command)->0;
    law_commands_keep_tables_valid(store, command, false);
    assert(after.is_user(id, username));
    user_id_is_unique(after, id, username);
}

/// A change of a password that succeeds ends every session of the user, and no other.
pub proof fn law_new_password_ends_sessions(
    store: Store,
    username: Seq<char>,
    password_hash: Seq<char>,
    run: ChangeRun,
    token: Seq<char>,
)
    requires
        store.is_valid(),
        set_password_run(store, username, password_hash, run).1 is Ok,
    ensures
        ({
            let after = set_password_run(store, username, password_hash, run).0;
            let id = store.user_id(username);
            &&& store.is_user(id, username)
            &&& after.users[id].password_hash == password_hash
            &&& after.users[id].enabled == store.users[id].enabled
            &&& after.sessions.contains_key(token) <==> store.sessions.contains_key(token)
                && store.sessions[token].user_id != id
            &&& after.sessions.contains_key(token) ==> after.sessions[token]
                == store.sessions[token]
        }),
{
    let command = CommandView::SetPasswordHash { username, password_hash };
    change_keeps_user(store, username, command);
}

/// To enable or disable a user, if it succeeds, ends every session of the user, and no other.
pub proof fn law_enabling_ends_sessions(
    store: Store,
    username: Seq<char>,
    enabled: bool,
    run: ChangeRun,
    token: Seq<char>,
)
    requires
        store.is_valid(),
        set_enabled_run(store, username, enabled, run).1 is Ok,
    ensures
        ({
            let after = set_enabled_run(store, username, enabled, run).0;
            let id = store.user_id(username);
            &&& store.is_user(id, username)
            &&& (after.users[id].enabled != 0) == enabled
            &&& after.users[id].password_hash == store.users[id].password_hash
            &&& after.sessions.contains_key(token) <==> store.sessions.contains_key(token)
                && store.sessions[token].user_id != id
            &&& after.sessions.contains_key(token) ==> after.sessions[token]
                == store.sessions[token]
        }),
{
    let command = CommandView::SetEnabled { username, enabled: enabled_mark(enabled) };
    change_keeps_user(store, username, command);
}

/// A change of a user, of one who exists, succeeds if no command fails, and only then.
pub proof fn law_change_succeeds_as_a_whole(
    store: Store,
    username: Seq<char>,
    password_hash: Seq<char>,
    enabled: bool,
    run: ChangeRun,
)
    requires
        store.is_valid(),
        store.has_user(username),
    ensures
        set_password_run(store, username, password_hash, run).1 is Ok <==> !run.change_fails
            && !run.lookup_fails && !run.clear_fails,
        set_enabled_run(store, username, enabled, run).1 is Ok <==> !run.change_fails
            && !run.lookup_fails && !run.clear_fails,
{
    change_keeps_user(store, username, CommandView::SetPasswordHash { username, password_hash });
    change_keeps_user(
        store,
        username,
        CommandView::SetEnabled { username, enabled: enabled_mark(enabled) },
    );
}

/// Nobody can log in as a user who has been disabled, whatever the password, as long as the user is
/// in the tables as the change left it.
pub proof fn law_disabled_user_cannot_log_in(
    store: Store,
    username: Seq<char>,
    change: ChangeRun,
    later_store: Store,
    body: Json,
    login: LoginRun,
)
    requires
        store.is_valid(),
        set_enabled_run(store, username, false, change).1 is Ok,
        later_store.find_user(username) == set_enabled_run(
            store,
            username,
            false,
            change,
        ).0.find_user(username),
        text_member(body, "username"@) == username,
    ensures
        login_run(later_store, body, login).0 == later_store,
        login_run(later_store, body, login).1.status != OK,
{
    let command = CommandView::SetEnabled { username, enabled: 0 };
    change_keeps_user(store, username, command);
    let changed = apply(store, command)->0;
    let after = set_enabled_run(store, username, false, change).0;
    assert(after.users == changed.users);
    assert(after.is_valid());
    assert(after.is_user(store.user_id(username), username));
    user_id_is_unique(after, store.user_id(username), username);
}

/// A change of a user who does not exist is refused, and changes nothing.
pub proof fn law_unknown_user_is_not_changed(
    store: Store,
    username: Seq<char>,
    password_hash: Seq<char>,
    enabled: bool,
    run: ChangeRun,
)
    requires
        !store.has_user(username),
        !run.change_fails,
    ensures
        set_password_run(store, username, password_hash, run) == (
            store,
            Err::<(), _>(AdminErrorView::UserMissing(username)),
        ),
        set_enabled_run(store, username, enabled, run) == (
            store,
            Err::<(), _>(AdminErrorView::UserMissing(username)),
        ),
{
}

/// The login of a user whose password this is succeeds, unless the database fails or the token has
/// been given out before.
proof fn right_password_logs_in(store: Store, body: Json, run: LoginRun)
    requires
        ({
            let username = text_member(body, "username"@);
            let password = text_member(body, "password"@);
            &&& store.find_user(username) matches Found::Row(row)
            &&& row.enabled != 0
            &&& is_hash_of(row.password_hash, password)
            &&& username.len() > 0
            &&& password.len() > 0
            &&& !run.lookup_fails && !run.clear_fails && !run.insert_fails
            &&& !store.sessions.contains_key(run.token)
        }),
    ensures
        login_run(store, body, run).1.status == OK,
{
}

/// A user who has been added can log in with the password that the user was added with, as long as
/// the user is in the tables as it was added.
pub proof fn law_added_user_can_log_in(
    store: Store,
    password_hash: Seq<char>,
    created_at: i64,
    reason: Seq<char>,
    later_store: Store,
    body: Json,
    run: LoginRun,
)
    requires
        ({
            let username = text_member(body, "username"@);
            let password = text_member(body, "password"@);
            let (added, result) = add_user_run(
                store,
                username,
                password_hash,
                created_at,
                false,
                reason,
            );
            &&& store.is_valid()
            &&& is_hash_of(password_hash, password)
            &&& result is Ok
            &&& later_store.find_user(username) == added.find_user(username)
            &&& username.len() > 0
            &&& password.len() > 0
            &&& !run.lookup_fails && !run.clear_fails && !run.insert_fails
            &&& !later_store.sessions.contains_key(run.token)
        }),
    ensures
        login_run(later_store, body, run).1.status == OK,
{
    let username = text_member(body, "username"@);
    let command = CommandView::InsertUser { username, password_hash, created_at };
    law_commands_keep_tables_valid(store, command, false);
    let added = add_user_run(store, username, password_hash, created_at, false, reason).0;
    user_id_is_unique(added, store.next_id, username);
    right_password_logs_in(later_store, body, run);
}

/// A user with a new password can log in with it, as long as the user is in the tables as the
/// change left it.
pub proof fn law_new_password_logs_in(
    store: Store,
    password_hash: Seq<char>,
    change: ChangeRun,
    later_store: Store,
    body: Json,
    run: LoginRun,
)
    requires
        ({
            let username = text_member(body, "username"@);
            let password = text_member(body, "password"@);
            let (after, result) = set_password_run(store, username, password_hash, change);
            &&& store.is_valid()
            &&& store.users[store.user_id(username)].enabled != 0
            &&& is_hash_of(password_hash, password)
            &&& result is Ok
            &&& later_store.find_user(username) == after.find_user(username)
            &&& username.len() > 0
            &&& password.len() > 0
            &&& !run.lookup_fails && !run.clear_fails && !run.insert_fails
            &&& !later_store.sessions.contains_key(run.token)
        }),
    ensures
        login_run(later_store, body, run).1.status == OK,
{
    let username = text_member(body, "username"@);
    let command = CommandView::SetPasswordHash { username, password_hash };
    change_keeps_user(store, username, command);
    let after = set_password_run(store, username, password_hash, change).0;
    assert(after.users == apply(store, command)->0.users);
    assert(after.is_valid());
    user_id_is_unique(after, store.user_id(username), username);
    right_password_logs_in(later_store, body, run);
}

/// Once a password has been changed, a password that does not match the hash of the new one is
/// refused, be it the old one, as long as the user is in the tables as the change left it.
pub proof fn law_old_password_is_refused(
    store: Store,
    password_hash: Seq<char>,
    change: ChangeRun,
    later_store: Store,
    body: Json,
    run: LoginRun,
)
    requires
        ({
            let username = text_member(body, "username"@);
            let password = text_member(body, "password"@);
            let (after, result) = set_password_run(store, username, password_hash, change);
            &&& store.is_valid()
            &&& result is Ok
            &&& later_store.find_user(username) == after.find_user(username)
            &&& !accepts(bcrypt_check(password, password_hash))
            &&& username.len() > 0
            &&& password.len() > 0
            &&& !run.lookup_fails
        }),
    ensures
        login_run(later_store, body, run) == (later_store, refusal("用户名或密码错误"@)),
{
    let username = text_member(body, "username"@);
    let command = CommandView::SetPasswordHash { username, password_hash };
    change_keeps_user(store, username, command);
    let after = set_password_run(store, username, password_hash, change).0;
    assert(after.users == apply(store, command)->0.users);
    assert(after.is_valid());
    user_id_is_unique(after, store.user_id(username), username);
}

/// A user name is given out once: to add a user of a name that is taken changes nothing, and is
/// told apart from other failures by the constraint that the database names.
pub proof fn law_user_name_is_given_once(
    store: Store,
    username: Seq<char>,
    password_hash: Seq<char>,
    created_at: i64,
    fails: bool,
    reason: Seq<char>,
)
    requires
        store.has_user(username),
    ensures
        ({
            let (after, result) = add_user_run(
                store,
                username,
                password_hash,
                created_at,
                fails,
                reason,
            );
            &&& after == store
            &&& result is Err
            &&& contains_text(reason, "UNIQUE"@) ==> result == Err::<(), _>(
                AdminErrorView::UserExists(username),
            )
        }),
{
}

/// An address book that has been stored is what its user gets, under whatever valid token, as long
/// as it is in the tables as it was stored, if the text that is written for the book reads back as
/// the book. What was stored in place of an array is an empty book.
pub proof fn law_address_book_reads_back(
    store: Store,
    headers: Map<Seq<char>, Seq<u8>>,
    body: Json,
    now: i64,
    updated_at: i64,
    later_store: Store,
    later_headers: Map<Seq<char>, Seq<u8>>,
    later: i64,
)
    requires
        bearer(headers) is Some,
        is_valid_token(store, bearer(headers)->0, now),
        posted_book(body) is Some,
        reads_back(written(posted_book(body)->0), posted_book(body)->0),
        bearer(later_headers) is Some,
        is_valid_token(later_store, bearer(later_headers)->0, later),
        ({
            let user_id = store.sessions[bearer(headers)->0].user_id;
            let after = post_ab_run(store, headers, body, now, updated_at, false, false).0;
            &&& later_store.sessions[bearer(later_headers)->0].user_id == user_id
            &&& later_store.find_book(user_id) == after.find_book(user_id)
        }),
    ensures
        post_ab_run(store, headers, body, now, updated_at, false, false).1 == empty_reply(OK),
        get_ab_run(later_store, later_headers, later, false, false).1 == book_reply(
            if posted_book(body)->0 is Array {
                posted_book(body)->0
            } else {
                Json::Array(Seq::empty())
            },
        ),
{
}

/// Whoever is given an address book is given an array, under `data` and with nothing beside it,
/// whatever text is stored.
pub proof fn law_address_book_is_an_array(
    store: Store,
    headers: Map<Seq<char>, Seq<u8>>,
    now: i64,
    fails: bool,
    book_fails: bool,
)
    requires
        get_ab_run(store, headers, now, fails, book_fails).1.status == OK,
    ensures
        ({
            let reply = get_ab_run(store, headers, now, fails, book_fails).1;
            &&& reply.body matches Some(Json::Object(members))
            &&& members.dom() == set!["data"@]
            &&& members["data"@] is Array
        }),
{
}

/// The address book of one user is not touched by what another user stores.
pub proof fn law_address_books_are_separate(
    store: Store,
    headers: Map<Seq<char>, Seq<u8>>,
    body: Json,
    now: i64,
    updated_at: i64,
    fails: bool,
    book_fails: bool,
    user_id: i64,
)
    requires
        bearer(headers) is Some ==> store.sessions[bearer(headers)->0].user_id != user_id,
    ensures
        ({
            let after = post_ab_run(store, headers, body, now, updated_at, fails, book_fails).0;
            &&& after.find_book(user_id) == store.find_book(user_id)
            &&& after.users == store.users
            &&& after.sessions == store.sessions
        }),
{
}

/// A user who has stored no address book gets an empty one.
pub proof fn law_address_book_starts_empty(
    store: Store,
    headers: Map<Seq<char>, Seq<u8>>,
    now: i64,
)
    requires
        bearer(headers) is Some,
        is_valid_token(store, bearer(headers)->0, now),
        !store.books.contains_key(store.sessions[bearer(headers)->0].user_id),
    ensures
        get_ab_run(store, headers, now, false, false).1 == book_reply(Json::Array(Seq::empty())),
{
}

/// A user whose stored address book cannot be read, or is no array, gets an empty one.
pub proof fn law_unreadable_address_book_is_empty(
    store: Store,
    headers: Map<Seq<char>, Seq<u8>>,
    now: i64,
)
    requires
        bearer(headers) is Some,
        is_valid_token(store, bearer(headers)->0, now),
        store.find_book(store.sessions[bearer(headers)->0].user_id) matches Found::Row(text)
            && !(parsed(text) matches Some(Json::Array(_))),
    ensures
        get_ab_run(store, headers, now, false, false).1 == book_reply(Json::Array(Seq::empty())),
{
}

/// The recorded form of an address is its own recorded form.
pub proof fn law_normal_form_is_stable(ip: IpAddress, normal: IpAddress)
    requires
        is_normal_form(ip, normal),
    ensures
        is_normal_form(normal, normal),
{
}

/// Options are read in turn: what follows goes on from the settings that went before.
pub proof fn law_options_are_read_in_turn(
    first: Seq<Seq<char>>,
    rest: Seq<Seq<char>>,
    options: OptionsView,
)
    requires
        read_options(first, options) is Ok,
    ensures
        read_options(first + rest, options) == read_options(
            rest,
            read_options(first, options)->Ok_0,
        ),
    decreases first.len(),
{
    let all = first + rest;
    if first.len() == 0 {
        assert(all =~= rest);
    } else if first[0] == "-p"@ || first[0] == "--port"@ {
        assert(all.skip(2) =~= first.skip(2) + rest);
        law_options_are_read_in_turn(
            first.skip(2),
            rest,
            OptionsView { port: named_port(first[1]), ..options },
        );
    } else if first[0] == "-d"@ || first[0] == "--db"@ {
        assert(all.skip(2) =~= first.skip(2) + rest);
        law_options_are_read_in_turn(
            first.skip(2),
            rest,
            OptionsView { db_path: first[1], ..options },
        );
    } else {
        assert(all.skip(1) =~= first.skip(1) + rest);
        law_options_are_read_in_turn(
            first.skip(1),
            rest,
            OptionsView { trusted_proxy: true, ..options },
        );
    }
}

/// The port that a command line asks for is never zero.
pub proof fn law_port_is_not_zero(args: Seq<Seq<char>>)
    ensures
        options_of(args) matches Ok(options) ==> options.port != 0,
{
}

} // verus!
