//! What holds of address books.

use vstd::prelude::*;

use crate::address_book::{
    book_reply, get_reply, get_user_step, post_reply, post_step, post_user_step, posted_book,
    read_book, reads_back, BookLookup, BookPostView, BookStore,
};
use crate::headers::bearer;
use crate::json::{parsed, written, Json};
use crate::reply::{Reply, Step};
use crate::runs::{get_ab_run, post_ab_run};
use crate::session::SessionUserView;
use crate::store::{CommandView, Found, Store};

verus! {

/// The book that is posted is what stands under `data`, if it is an array or a text.
pub proof fn law_posted_book_stands_under_data(members: Map<Seq<char>, Json>, other: Json)
    ensures
        members.contains_key("data"@) && (members["data"@] is Array || members["data"@] is Text)
            ==> posted_book(Json::Object(members)) == Some(members["data"@]),
        members.contains_key("data"@) && !(members["data"@] is Array) && !(members["data"@] is Text)
            ==> posted_book(Json::Object(members)) is None,
        !members.contains_key("data"@) ==> posted_book(Json::Object(members)) is None,
        !(other is Object) ==> posted_book(other) is None,
{
}

/// What is to be stored is the text of the book that was posted, for the session of the token that
/// the request carries. Without a token the request is refused, without a book it is a bad one.
pub proof fn law_posted_book_is_stored_as_text(
    headers: Map<Seq<char>, Seq<u8>>,
    token: Seq<char>,
    body: Json,
    data: Json,
)
    ensures
        bearer(headers) == Some(token) && posted_book(body) == Some(data) ==> post_step(
            headers,
            body,
        ) == Step::<CommandView, BookPostView, Reply>::Run(
            CommandView::FindSession { token },
            BookPostView { data: written(data) },
        ),
        bearer(headers) is Some && posted_book(body) is None ==> post_step(headers, body) == Step::<
            CommandView,
            BookPostView,
            Reply,
        >::Reply(
            Reply {
                status: 400,
                body: Some(Json::Object(map!["error"@ => Json::Text("无效的地址簿数据"@)])),
            },
        ),
        bearer(headers) is None ==> post_step(headers, body) == Step::<
            CommandView,
            BookPostView,
            Reply,
        >::Reply(
            Reply {
                status: 401,
                body: Some(Json::Object(map!["error"@ => Json::Text("缺少凭证"@)])),
            },
        ),
{
}

/// A book is stored for, and looked up for, the user of the session.
pub proof fn law_book_is_that_of_the_user_of_the_session(
    data: Seq<char>,
    username: Seq<char>,
    user_id: i64,
    updated_at: i64,
)
    ensures
        post_user_step(
            BookPostView { data },
            Found::Row(SessionUserView { username, user_id }),
            updated_at,
        ) == Step::<CommandView, BookStore, Reply>::Run(
            CommandView::SaveBook { user_id, data, updated_at },
            BookStore,
        ),
        get_user_step(Found::Row(SessionUserView { username, user_id })) == Step::<
            CommandView,
            BookLookup,
            Reply,
        >::Run(CommandView::FindBook { user_id }, BookLookup),
{
}

/// Without a valid session a book is neither stored nor looked up.
pub proof fn law_book_takes_a_session(data: Seq<char>, updated_at: i64)
    ensures
        ({
            let refused = Reply {
                status: 401,
                body: Some(Json::Object(map!["error"@ => Json::Text("凭证无效"@)])),
            };
            let failed = Reply {
                status: 500,
                body: Some(Json::Object(map!["error"@ => Json::Text("数据库错误"@)])),
            };
            let post = BookPostView { data };
            &&& post_user_step(post, Found::Missing, updated_at) == Step::<
                CommandView,
                BookStore,
                Reply,
            >::Reply(refused)
            &&& post_user_step(post, Found::Failed, updated_at) == Step::<
                CommandView,
                BookStore,
                Reply,
            >::Reply(failed)
            &&& get_user_step(Found::Missing) == Step::<CommandView, BookLookup, Reply>::Reply(
                refused,
            )
            &&& get_user_step(Found::Failed) == Step::<CommandView, BookLookup, Reply>::Reply(
                failed,
            )
        }),
{
}

/// A book that was stored is answered with status 200 and no body, one that was not with the
/// failure of the database.
pub proof fn law_stored_book_is_answered_without_a_body()
    ensures
        post_reply(true) == (Reply { status: 200, body: None }),
        post_reply(false) == (Reply {
            status: 500,
            body: Some(Json::Object(map!["error"@ => Json::Text("数据库错误"@)])),
        }),
{
}

/// The array that is read out of the stored text is given out as it is, under `data` and with
/// nothing beside it. For anything else, and where nothing is stored, an empty array is given out.
pub proof fn law_stored_array_is_given_out(text: Seq<char>, items: Seq<Json>)
    ensures
        parsed(text) == Some(Json::Array(items)) ==> get_reply(Found::Row(text)) == (Reply {
            status: 200,
            body: Some(Json::Object(map!["data"@ => Json::Array(items)])),
        }),
        (parsed(text) is None || !(parsed(text)->0 is Array)) ==> get_reply(Found::Row(text)) == (
        Reply {
            status: 200,
            body: Some(Json::Object(map!["data"@ => Json::Array(Seq::empty())])),
        }),
        get_reply(Found::Missing) == (Reply {
            status: 200,
            body: Some(Json::Object(map!["data"@ => Json::Array(Seq::empty())])),
        }),
        get_reply(Found::Failed) == (Reply {
            status: 500,
            body: Some(Json::Object(map!["error"@ => Json::Text("数据库错误"@)])),
        }),
{
}

/// A book is given out as it was read, if it is an array, and as an empty array otherwise.
pub proof fn law_read_array_is_given_out(items: Seq<Json>, other: Json, text: Seq<char>, book: Json)
    ensures
        book_reply(read_book(Some(Json::Array(items)))) == (Reply {
            status: 200,
            body: Some(Json::Object(map!["data"@ => Json::Array(items)])),
        }),
        !(other is Array) ==> book_reply(read_book(Some(other))) == (Reply {
            status: 200,
            body: Some(Json::Object(map!["data"@ => Json::Array(Seq::empty())])),
        }),
        book_reply(read_book(None)) == (Reply {
            status: 200,
            body: Some(Json::Object(map!["data"@ => Json::Array(Seq::empty())])),
        }),
        reads_back(text, book) <==> parsed(text) == Some(book),
{
}

/// Whoever posts an array under `data` gets that array back under `data`, under any token of a
/// valid session of the same user, as long as the book is in the tables as it was stored and its
/// text reads back.
pub proof fn law_posted_array_comes_back(
    store: Store,
    headers: Map<Seq<char>, Seq<u8>>,
    token: Seq<char>,
    members: Map<Seq<char>, Json>,
    now: i64,
    updated_at: i64,
    later_store: Store,
    later_headers: Map<Seq<char>, Seq<u8>>,
    later_token: Seq<char>,
    later: i64,
    user_id: i64,
)
    requires
        bearer(headers) == Some(token),
        store.sessions.contains_key(token),
        store.sessions[token].user_id == user_id,
        now <= store.sessions[token].expires_at,
        store.users.contains_key(user_id),
        store.users[user_id].enabled != 0,
        members.contains_key("data"@),
        members["data"@] is Array,
        parsed(written(members["data"@])) == Some(members["data"@]),
        bearer(later_headers) == Some(later_token),
        later_store.sessions.contains_key(later_token),
        later_store.sessions[later_token].user_id == user_id,
        later <= later_store.sessions[later_token].expires_at,
        later_store.users.contains_key(user_id),
        later_store.users[user_id].enabled != 0,
        later_store.books.contains_key(user_id),
        later_store.books[user_id] == post_ab_run(
            store,
            headers,
            Json::Object(members),
            now,
            updated_at,
            false,
            false,
        ).0.books[user_id],
    ensures
        post_ab_run(store, headers, Json::Object(members), now, updated_at, false, false).1 == (
        Reply { status: 200, body: None }),
        ({
            let reply = get_ab_run(later_store, later_headers, later, false, false).1;
            &&& reply.status == 200
            &&& reply.body matches Some(Json::Object(answer))
            &&& answer.dom() == set!["data"@]
            &&& answer["data"@] == members["data"@]
        }),
{
    assert(members["data"@] == Json::Array(members["data"@]->Array_0));
}

} // verus!
