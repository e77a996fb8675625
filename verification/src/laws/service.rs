//! What holds of the service: its endpoints, its clock, its statements.

use std::time::SystemTime;
use vstd::prelude::*;

use crate::clock::{is_reading, reading_stamp, since_epoch, stamp, whole_seconds};
use crate::server::{open_steps, Endpoint, Method, OpenStepView};
use crate::store::{schema_text, BindingView, CommandView};

verus! {

/// The service answers at these paths.
pub proof fn law_endpoints_have_their_paths()
    ensures
        Endpoint::Login.path_text() == "/api/login"@,
        Endpoint::CurrentUser.path_text() == "/api/currentUser"@,
        Endpoint::Logout.path_text() == "/api/logout"@,
        Endpoint::LoginOptions.path_text() == "/api/login-options"@,
        Endpoint::AddressBook.path_text() == "/api/ab"@,
        Endpoint::VerifySession.path_text() == "/api/verify-session"@,
{
}

/// The ways to log in are asked for by `GET`, an address book by `GET` and stored by `POST`, and
/// all else is asked for by `POST`.
pub proof fn law_endpoints_have_their_methods(endpoint: Endpoint)
    ensures
        endpoint.method_list().contains(Method::Get) <==> endpoint == Endpoint::LoginOptions
            || endpoint == Endpoint::AddressBook,
        endpoint.method_list().contains(Method::Post) <==> endpoint != Endpoint::LoginOptions,
        endpoint.method_list().no_duplicates(),
{
    let list = endpoint.method_list();
    match endpoint {
        Endpoint::LoginOptions => {
            assert(list[0] == Method::Get);
        },
        Endpoint::AddressBook => {
            assert(list[0] == Method::Get && list[1] == Method::Post);
        },
        _ => {
            assert(list[0] == Method::Post);
        },
    }
}

/// A database is opened at the path that is given, and its tables are created; a file is created at
/// that path first if there is none, and only then.
pub proof fn law_database_is_opened_at_its_path(path: Seq<char>)
    ensures
        open_steps(path, true) == seq![
            OpenStepView::Connect("sqlite://"@ + path),
            OpenStepView::Execute(schema_text()),
        ],
        open_steps(path, false) == seq![
            OpenStepView::CreateFile(path),
            OpenStepView::Connect("sqlite://"@ + path),
            OpenStepView::Execute(schema_text()),
        ],
{
}

/// The time stamp of a moment is the number of seconds since the epoch, and zero before it. A count
/// that does not fit comes round from the negative end.
pub proof fn law_time_stamp_counts_seconds(n: u64, reading: SystemTime)
    ensures
        stamp(None) == 0,
        n <= 0x7fff_ffff_ffff_ffff ==> stamp(Some(n)) == n,
        n > 0x7fff_ffff_ffff_ffff ==> stamp(Some(n)) == n - 0x1_0000_0000_0000_0000,
        since_epoch(reading) is None ==> reading_stamp(reading) == 0,
        since_epoch(reading) matches Some(duration) ==> reading_stamp(reading) == stamp(
            Some(whole_seconds(duration)),
        ),
{
}

/// The readings that time stamps are taken of are given by the system clock.
pub proof fn law_readings_come_from_the_clock(reading: SystemTime)
    requires
        is_reading(reading),
    ensures
        call_ensures(SystemTime::now, (), reading),
{
}

/// The statements that look for rows, with a placeholder for what they look for.
pub proof fn law_lookups_bind_what_they_look_for(text: Seq<char>, number: i64)
    ensures
        ({
            let find_user = CommandView::FindUser { username: text };
            let find_user_id = CommandView::FindUserId { username: text };
            let find_session = CommandView::FindSession { token: text };
            let find_grant = CommandView::FindGrant { token: text };
            let find_book = CommandView::FindBook { user_id: number };
            &&& find_user.statement()
                == "select id, password_hash, enabled from users where username = ?"@
            &&& find_user.bound() == seq![BindingView::Text(text)]
            &&& find_user_id.statement() == "select id from users where username = ?"@
            &&& find_user_id.bound() == seq![BindingView::Text(text)]
            &&& find_session.statement()
                == "select u.id, u.username, u.enabled, s.expires_at from sessions s join users u on s.user_id = u.id where s.token = ?"@
            &&& find_session.bound() == seq![BindingView::Text(text)]
            &&& find_grant.statement()
                == "select s.expires_at, s.login_ip, u.enabled from sessions s join users u on s.user_id = u.id where s.token = ?"@
            &&& find_grant.bound() == seq![BindingView::Text(text)]
            &&& find_book.statement() == "select data from ab_data where user_id = ?"@
            &&& find_book.bound() == seq![BindingView::Integer(number)]
        }),
{
}

/// The statements that change sessions and address books, with placeholders for the values that
/// they look for or write.
pub proof fn law_changes_of_sessions_and_books_bind_their_values(
    token: Seq<char>,
    user_id: i64,
    expires_at: i64,
    login_ip: Seq<char>,
    created_at: i64,
    data: Seq<char>,
)
    ensures
        ({
            let end_all = CommandView::DeleteUserSessions { user_id };
            let end_one = CommandView::DeleteSession { token };
            let open = CommandView::InsertSession {
                token,
                user_id,
                expires_at,
                login_ip,
                created_at,
            };
            let save = CommandView::SaveBook { user_id, data, updated_at: created_at };
            &&& end_all.statement() == "delete from sessions where user_id = ?"@
            &&& end_all.bound() == seq![BindingView::Integer(user_id)]
            &&& end_one.statement() == "delete from sessions where token = ?"@
            &&& end_one.bound() == seq![BindingView::Text(token)]
            &&& open.statement()
                == "insert into sessions (token, user_id, expires_at, login_ip, created_at) values (?, ?, ?, ?, ?)"@
            &&& open.bound() == seq![
                BindingView::Text(token),
                BindingView::Integer(user_id),
                BindingView::Integer(expires_at),
                BindingView::Text(login_ip),
                BindingView::Integer(created_at),
            ]
            &&& save.statement() == "insert into ab_data (user_id, data, updated_at) values (?, ?, ?)
                 on conflict(user_id) do update set data = excluded.data, updated_at = excluded.updated_at"@
            &&& save.bound() == seq![
                BindingView::Integer(user_id),
                BindingView::Text(data),
                BindingView::Integer(created_at),
            ]
        }),
{
}

/// The statements that change users, with placeholders for the values that they write and for the
/// user.
pub proof fn law_changes_of_users_bind_their_values(
    username: Seq<char>,
    password_hash: Seq<char>,
    created_at: i64,
    enabled: i64,
)
    ensures
        ({
            let insert = CommandView::InsertUser { username, password_hash, created_at };
            let set_hash = CommandView::SetPasswordHash { username, password_hash };
            let set_enabled = CommandView::SetEnabled { username, enabled };
            &&& insert.statement()
                == "insert into users (username, password_hash, enabled, created_at) values (?, ?, 1, ?)"@
            &&& insert.bound() == seq![
                BindingView::Text(username),
                BindingView::Text(password_hash),
                BindingView::Integer(created_at),
            ]
            &&& set_hash.statement() == "update users set password_hash = ? where username = ?"@
            &&& set_hash.bound() == seq![
                BindingView::Text(password_hash),
                BindingView::Text(username),
            ]
            &&& set_enabled.statement() == "update users set enabled = ? where username = ?"@
            &&& set_enabled.bound() == seq![
                BindingView::Integer(enabled),
                BindingView::Text(username),
            ]
        }),
{
}

/// The tables: users with a unique name, sessions by their token, address books by their user. Each
/// is created only where it is missing.
pub proof fn law_schema_creates_three_tables()
    ensures
        schema_text() == "create table if not exists users (
            id integer primary key autoincrement,
            username varchar(100) not null unique,
            password_hash varchar(200) not null,
            enabled integer not null default 1,
            created_at integer not null
        );
        create table if not exists sessions (
            token varchar(128) primary key not null,
            user_id integer not null,
            expires_at integer not null,
            login_ip varchar(100) not null,
            created_at integer not null
        );
        create table if not exists ab_data (
            user_id integer primary key not null,
            data text not null,
            updated_at integer not null
        );"@,
{
}

} // verus!
