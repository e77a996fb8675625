//! What holds of sessions.

use vstd::prelude::*;

use crate::headers::bearer;
use crate::json::Json;
use crate::laws::headers::law_bearer_carries_tokens_of_logins;
use crate::reply::{Reply, Step};
use crate::runs::{current_user_run, logout_run, verify_run};
use crate::session::{
    current_user_reply, is_live, logout_step, session_step, valid_user, verify_reply, SessionEnd,
    SessionLookup, SessionUserView,
};
use crate::store::{CommandView, Found, GrantRowView, SessionRowView, Store};
use crate::token::is_token;

verus! {

/// A session is that of its user up to and with the second in which it runs out, as long as the
/// user is enabled.
pub proof fn law_session_is_its_users(row: SessionRowView, now: i64)
    ensures
        row.enabled != 0 && now <= row.expires_at ==> valid_user(Found::Row(row), now)
            == Found::Row(SessionUserView { username: row.username, user_id: row.user_id }),
        row.enabled == 0 || now > row.expires_at ==> valid_user(Found::Row(row), now)
            == Found::<SessionUserView>::Missing,
        valid_user(Found::Missing, now) == Found::<SessionUserView>::Missing,
        valid_user(Found::Failed, now) == Found::<SessionUserView>::Failed,
        is_live(row.enabled, row.expires_at, now) <==> row.enabled != 0 && now <= row.expires_at,
{
}

/// The session that is looked up, or ended, is that of the token that the request carries.
pub proof fn law_session_is_that_of_the_token(headers: Map<Seq<char>, Seq<u8>>, token: Seq<char>)
    ensures
        bearer(headers) == Some(token) ==> session_step(headers) == Step::<
            CommandView,
            SessionLookup,
            Reply,
        >::Run(CommandView::FindSession { token }, SessionLookup),
        bearer(headers) == Some(token) ==> logout_step(headers) == Step::<
            CommandView,
            SessionEnd,
            Reply,
        >::Run(CommandView::DeleteSession { token }, SessionEnd),
        bearer(headers) is None ==> session_step(headers) == Step::<
            CommandView,
            SessionLookup,
            Reply,
        >::Reply(
            Reply {
                status: 401,
                body: Some(Json::Object(map!["error"@ => Json::Text("缺少凭证"@)])),
            },
        ),
        bearer(headers) is None ==> logout_step(headers) == Step::<
            CommandView,
            SessionEnd,
            Reply,
        >::Reply(
            Reply {
                status: 401,
                body: Some(Json::Object(map!["error"@ => Json::Text("缺少凭证"@)])),
            },
        ),
{
}

/// The current user is the user of the session, under the user's own name.
pub proof fn law_current_user_is_the_user_of_the_session(username: Seq<char>, user_id: i64)
    ensures
        current_user_reply(Found::Row(SessionUserView { username, user_id })) == (Reply {
            status: 200,
            body: Some(
                Json::Object(
                    map![
                        "name"@ => Json::Text(username),
                        "display_name"@ => Json::Text(username),
                        "avatar"@ => Json::Text(""@),
                        "status"@ => Json::Integer(1),
                        "is_admin"@ => Json::Bool(false),
                    ],
                ),
            ),
        }),
        current_user_reply(Found::Missing) == (Reply {
            status: 401,
            body: Some(Json::Object(map!["error"@ => Json::Text("凭证无效"@)])),
        }),
        current_user_reply(Found::Failed) == (Reply {
            status: 500,
            body: Some(Json::Object(map!["error"@ => Json::Text("数据库错误"@)])),
        }),
{
}

/// A session is judged by its user, the time and the address, in this order: it is valid for the
/// address of its login, while it has not run out and its user is enabled.
pub proof fn law_session_is_judged_by_user_time_and_address(
    row: GrantRowView,
    ip: Seq<char>,
    now: i64,
)
    ensures
        row.enabled != 0 && now <= row.expires_at && ip == row.login_ip ==> verify_reply(
            Found::Row(row),
            ip,
            now,
        ) == (Reply {
            status: 200,
            body: Some(Json::Object(map!["valid"@ => Json::Bool(true)])),
        }),
        row.enabled != 0 && now <= row.expires_at && ip != row.login_ip ==> verify_reply(
            Found::Row(row),
            ip,
            now,
        ) == (Reply {
            status: 200,
            body: Some(
                Json::Object(
                    map!["valid"@ => Json::Bool(false), "reason"@ => Json::Text("ip_mismatch"@)],
                ),
            ),
        }),
        row.enabled != 0 && now > row.expires_at ==> verify_reply(Found::Row(row), ip, now) == (
        Reply {
            status: 200,
            body: Some(
                Json::Object(
                    map!["valid"@ => Json::Bool(false), "reason"@ => Json::Text("expired"@)],
                ),
            ),
        }),
        row.enabled == 0 ==> verify_reply(Found::Row(row), ip, now) == (Reply {
            status: 200,
            body: Some(
                Json::Object(
                    map!["valid"@ => Json::Bool(false), "reason"@ => Json::Text("not_found"@)],
                ),
            ),
        }),
        verify_reply(Found::Missing, ip, now) == (Reply {
            status: 200,
            body: Some(
                Json::Object(
                    map!["valid"@ => Json::Bool(false), "reason"@ => Json::Text("not_found"@)],
                ),
            ),
        }),
        verify_reply(Found::Failed, ip, now) == (Reply {
            status: 500,
            body: Some(Json::Object(map!["error"@ => Json::Text("数据库错误"@)])),
        }),
{
}

/// The token of a session, sent back behind `Bearer `, is answered with the user of the session as
/// long as it lasts, and a logout with it ends the session and no other.
pub proof fn law_token_that_is_sent_back_is_accepted(
    store: Store,
    headers: Map<Seq<char>, Seq<u8>>,
    token: Seq<char>,
    now: i64,
)
    requires
        is_token(token),
        headers.contains_key("authorization"@),
        headers["authorization"@].len() == 39,
        forall|i: int|
            0 <= i < 39 ==> #[trigger] headers["authorization"@][i] as int == ("Bearer "@
                + token)[i] as int,
        store.sessions.contains_key(token),
        store.users.contains_key(store.sessions[token].user_id),
        store.users[store.sessions[token].user_id].enabled != 0,
        now <= store.sessions[token].expires_at,
    ensures
        current_user_run(store, headers, now, false).1 == (Reply {
            status: 200,
            body: Some(
                Json::Object(
                    map![
                        "name"@ => Json::Text(
                            store.users[store.sessions[token].user_id].username,
                        ),
                        "display_name"@ => Json::Text(
                            store.users[store.sessions[token].user_id].username,
                        ),
                        "avatar"@ => Json::Text(""@),
                        "status"@ => Json::Integer(1),
                        "is_admin"@ => Json::Bool(false),
                    ],
                ),
            ),
        }),
        verify_run(store, token, store.sessions[token].login_ip, now, false).1 == (Reply {
            status: 200,
            body: Some(Json::Object(map!["valid"@ => Json::Bool(true)])),
        }),
        logout_run(store, headers, false).0 == (Store {
            sessions: store.sessions.remove(token),
            ..store
        }),
        logout_run(store, headers, false).1 == (Reply { status: 200, body: None }),
{
    law_bearer_carries_tokens_of_logins(headers, token);
}

} // verus!
