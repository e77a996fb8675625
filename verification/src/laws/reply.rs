//! What holds of replies.

use vstd::prelude::*;

use crate::json::Json;
use crate::reply::{
    database_failure, empty_reply, error_reply, json_reply, refusal, user_object, Reply,
    BAD_REQUEST, INTERNAL_SERVER_ERROR, OK, UNAUTHORIZED,
};

verus! {

/// The statuses are those of HTTP.
pub proof fn law_statuses_are_those_of_http()
    ensures
        OK == 200,
        BAD_REQUEST == 400,
        UNAUTHORIZED == 401,
        INTERNAL_SERVER_ERROR == 500,
{
}

/// A reply has the status and the body that it is given.
pub proof fn law_reply_has_status_and_body(status: u16, body: Json)
    ensures
        json_reply(status, body).status == status,
        json_reply(status, body).body == Some(body),
        empty_reply(status).status == status,
        empty_reply(status).body is None,
{
}

/// An error is told in words, under `error` and with nothing beside it. A request without valid
/// credentials is told so with status 401, a failure of the database with status 500.
pub proof fn law_errors_are_told_in_words(status: u16, message: Seq<char>)
    ensures
        error_reply(status, message) == (Reply {
            status,
            body: Some(Json::Object(map!["error"@ => Json::Text(message)])),
        }),
        refusal(message) == (Reply {
            status: 401,
            body: Some(Json::Object(map!["error"@ => Json::Text(message)])),
        }),
        database_failure() == (Reply {
            status: 500,
            body: Some(Json::Object(map!["error"@ => Json::Text("数据库错误"@)])),
        }),
{
}

/// A user is described by the user's name, shown under it, without an avatar, as active and as no
/// administrator.
pub proof fn law_user_is_described_by_name(username: Seq<char>)
    ensures
        user_object(username) == Json::Object(
            map![
                "name"@ => Json::Text(username),
                "display_name"@ => Json::Text(username),
                "avatar"@ => Json::Text(""@),
                "status"@ => Json::Integer(1),
                "is_admin"@ => Json::Bool(false),
            ],
        ),
{
}

} // verus!
