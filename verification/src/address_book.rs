//! Address books: each user's own JSON document.

use axum::http::HeaderMap;
use serde_json::Value;
use std::time::SystemTime;
use vstd::prelude::*;

use crate::clock::{is_reading, now, reading_stamp};
use crate::headers::{bearer, bearer_token, first_values};
use crate::json::{
    empty_array, empty_object, from_str, get, json, parsed, to_string, with, written, Json,
    MAX_DEPTH,
};
use crate::reply::{
    database_error, database_failure, empty_reply, empty_response, error_reply, error_response,
    json_reply, json_response, refusal, unauthorized, Reply, Response, Step, BAD_REQUEST, OK,
};
use crate::session::{find_session, session_step, SessionLookup, SessionUser, SessionUserView};
use crate::store::{Command, CommandView, Found};

verus! {

/// A request for an address book, which waits for the book to be looked up.
#[derive(Debug)]
pub struct BookLookup;

impl View for BookLookup {
    type V = BookLookup;

    open spec fn view(&self) -> BookLookup {
        *self
    }
}

/// A request to store an address book, which waits for its session to be looked up.
#[derive(Debug)]
pub struct BookPost {
    pub data: String,
}

/// A [`BookPost`] as a mathematical value.
pub struct BookPostView {
    pub data: Seq<char>,
}

impl View for BookPost {
    type V = BookPostView;

    open spec fn view(&self) -> BookPostView {
        BookPostView { data: self.data@ }
    }
}

/// A request to store an address book, which waits for the book to be stored.
#[derive(Debug)]
pub struct BookStore;

impl View for BookStore {
    type V = BookStore;

    open spec fn view(&self) -> BookStore {
        *self
    }
}

/// The address book in the body of a request: the array or the text under `data`.
pub open spec fn posted_book(body: Json) -> Option<Json> {
    match body.member("data"@) {
        Some(data) => if data is Array || data is Text {
            Some(data)
        } else {
            None
        },
        None => None,
    }
}

/// What is read out of the stored text `data` is `book`.
pub open spec fn reads_back(data: Seq<char>, book: Json) -> bool {
    parsed(data) == Some(book)
}

/// What to do about a request to store an address book.
pub open spec fn post_step(headers: Map<Seq<char>, Seq<u8>>, body: Json) -> Step<
    CommandView,
    BookPostView,
    Reply,
> {
    match bearer(headers) {
        None => Step::Reply(refusal("缺少凭证"@)),
        Some(token) => match posted_book(body) {
            None => Step::Reply(error_reply(BAD_REQUEST, "无效的地址簿数据"@)),
            Some(data) => Step::Run(
                CommandView::FindSession { token },
                BookPostView { data: written(data) },
            ),
        },
    }
}

/// What to do about a request to store an address book, given the user of the session.
pub open spec fn post_user_step(
    post: BookPostView,
    user: Found<SessionUserView>,
    updated_at: i64,
) -> Step<CommandView, BookStore, Reply> {
    match user {
        Found::Failed => Step::Reply(database_failure()),
        Found::Missing => Step::Reply(refusal("凭证无效"@)),
        Found::Row(user) => Step::Run(
            CommandView::SaveBook { user_id: user.user_id, data: post.data, updated_at },
            BookStore,
        ),
    }
}

/// The reply to a request to store an address book, by whether it was stored.
pub open spec fn post_reply(stored: bool) -> Reply {
    if stored {
        empty_reply(OK)
    } else {
        database_failure()
    }
}

/// What to do about a request for an address book, given the user of the session.
pub open spec fn get_user_step(user: Found<SessionUserView>) -> Step<
    CommandView,
    BookLookup,
    Reply,
> {
    match user {
        Found::Failed => Step::Reply(database_failure()),
        Found::Missing => Step::Reply(refusal("凭证无效"@)),
        Found::Row(user) => Step::Run(CommandView::FindBook { user_id: user.user_id }, BookLookup),
    }
}

/// The address book that a stored text stands for, given what was read out of the text. Clients
/// rely on getting an array: anything else, and a text that is no JSON, is an empty book.
pub open spec fn read_book(document: Option<Json>) -> Json {
    match document {
        Some(Json::Array(items)) => Json::Array(items),
        _ => Json::Array(Seq::empty()),
    }
}

/// The reply that carries an address book.
pub open spec fn book_reply(book: Json) -> Reply {
    json_reply(OK, Json::Object(map!["data"@ => book]))
}

/// The reply to a request for an address book, given the stored text.
pub open spec fn get_reply(found: Found<Seq<char>>) -> Reply {
    match found {
        Found::Failed => database_failure(),
        Found::Missing => book_reply(Json::Array(Seq::empty())),
        Found::Row(text) => book_reply(read_book(parsed(text))),
    }
}

/// The text under which to store the address book in the body of a request: clients post
/// `{"data": [...]}`. A text in place of the array is stored too, though it is read as an empty
/// book.
pub fn parse_ab_data(body: &Value) -> (res: Option<String>)
    ensures
        match res {
            Some(text) => {
                &&& posted_book(json(*body)) is Some
                &&& text@ == written(posted_book(json(*body))->0)
                &&& posted_book(json(*body))->0.is_exact(MAX_DEPTH as nat) ==> reads_back(
                    text@,
                    posted_book(json(*body))->0,
                )
            },
            None => posted_book(json(*body)) is None,
        },
{
    let data = match get(body, "data") {
        Some(data) => data,
        None => return None,
    };
    if !data.is_array() && !data.is_string() {
        return None;
    }
    match to_string(data) {
        Ok(text) => Some(text),
        Err(_) => None,
    }
}

/// Starts a request to store an address book. The text to be stored reads back as the book that
/// was posted, where that holds integers only, is nested no deeper than JSON is read and has no
/// object in which the key that serde_json keeps for itself is the first.
pub fn post_ab(headers: &HeaderMap, body: &Value) -> (res: Step<Command, BookPost, Response>)
    ensures
        res@ == post_step(first_values(*headers), json(*body)),
        res matches Step::Run(_, post) ==> {
            let book = posted_book(json(*body))->0;
            book.is_exact(MAX_DEPTH as nat) ==> reads_back(post.data@, book)
        },
{
    let token = match bearer_token(headers) {
        Some(token) => token,
        None => return Step::Reply(unauthorized("缺少凭证")),
    };
    match parse_ab_data(body) {
        Some(data) => Step::Run(Command::FindSession { token }, BookPost { data }),
        None => Step::Reply(error_response(BAD_REQUEST, "无效的地址簿数据")),
    }
}

/// Goes on with a request to store an address book, given the user of the session, at the time
/// `updated_at`.
pub fn post_ab_user_at(post: BookPost, user: Found<SessionUser>, updated_at: i64) -> (res: Step<
    Command,
    BookStore,
    Response,
>)
    ensures
        res@ == post_user_step(post@, user@, updated_at),
{
    match user {
        Found::Failed => Step::Reply(database_error()),
        Found::Missing => Step::Reply(unauthorized("凭证无效")),
        Found::Row(user) => Step::Run(
            Command::SaveBook { user_id: user.user_id, data: post.data, updated_at },
            BookStore,
        ),
    }
}

/// Goes on with a request to store an address book, given the user of the session.
pub fn post_ab_user(post: BookPost, user: Found<SessionUser>) -> (res: Step<
    Command,
    BookStore,
    Response,
>)
    ensures
        exists|reading: SystemTime| #[trigger]
            is_reading(reading) && res@ == post_user_step(
                post@,
                user@,
                reading_stamp(reading) as i64,
            ),
{
    post_ab_user_at(post, user, now())
}

/// Ends a request to store an address book, by whether it was stored.
pub fn post_ab_stored(_store: BookStore, stored: bool) -> (res: Response)
    ensures
        res@ == post_reply(stored),
{
    if stored {
        empty_response(OK)
    } else {
        database_error()
    }
}

/// Starts a request for an address book.
pub fn get_ab(headers: &HeaderMap) -> (res: Step<Command, SessionLookup, Response>)
    ensures
        res@ == session_step(first_values(*headers)),
{
    find_session(headers)
}

/// Goes on with a request for an address book, given the user of the session.
pub fn get_ab_user(user: Found<SessionUser>) -> (res: Step<Command, BookLookup, Response>)
    ensures
        res@ == get_user_step(user@),
{
    match user {
        Found::Failed => Step::Reply(database_error()),
        Found::Missing => Step::Reply(unauthorized("凭证无效")),
        Found::Row(user) => Step::Run(Command::FindBook { user_id: user.user_id }, BookLookup),
    }
}

/// The reply that carries an address book.
fn book_response(book: Value) -> (res: Response)
    ensures
        res@ == book_reply(json(book)),
{
    json_response(OK, with(empty_object(), "data", book))
}

/// The reply that carries an address book, given what was read out of the stored text: an empty
/// one where nothing could be read, or something else than an array.
pub fn get_ab_parsed(document: Option<Value>) -> (res: Response)
    ensures
        res@ == book_reply(
            read_book(
                match document {
                    Some(value) => Some(json(value)),
                    None => None,
                },
            ),
        ),
{
    match document {
        Some(value) => if value.is_array() {
            book_response(value)
        } else {
            book_response(empty_array())
        },
        None => book_response(empty_array()),
    }
}

/// Ends a request for an address book, given the stored text.
pub fn get_ab_found(found: Found<String>) -> (res: Response)
    ensures
        res@ == get_reply(found@),
{
    match found {
        Found::Failed => database_error(),
        Found::Missing => book_response(empty_array()),
        Found::Row(text) => match from_str(text.as_str()) {
            Ok(value) => get_ab_parsed(Some(value)),
            Err(_) => get_ab_parsed(None),
        },
    }
}

} // verus!
