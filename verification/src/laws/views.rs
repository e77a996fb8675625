//! What the values that the functions take and give stand for: each part of a value counts, as it
//! is.

use serde_json::Value;
use vstd::prelude::*;

use crate::address_book::BookPost;
use crate::admin::{told, AdminError, AdminErrorView, NewUser, UserChange};
use crate::json::json;
use crate::login::{LoginClear, LoginLookup, LoginStore};
use crate::options::{
    texts, AdminTask, AdminTaskView, Invocation, InvocationView, Options, UsageError,
    UsageErrorView,
};
use crate::reply::{Reply, Response, Step};
use crate::server::{OpenStep, OpenStepView};
use crate::session::SessionUser;
use crate::store::{
    Binding, BindingView, Command, CommandView, Found, GrantRow, SessionRow, UserRow,
};

verus! {

/// A response stands for its status and for what its body holds.
pub proof fn law_response_stands_for_its_parts(status: u16, body: Value)
    ensures
        (Response { status, body: None })@ == (Reply { status, body: None }),
        (Response { status, body: Some(body) })@ == (Reply { status, body: Some(json(body)) }),
{
}

/// A step stands for the reply, or for the command and the state that goes with it.
pub proof fn law_step_stands_for_its_parts<S: View>(response: Response, command: Command, state: S)
    ensures
        Step::<Command, S, Response>::Reply(response)@ == Step::<CommandView, S::V, Reply>::Reply(
            response@,
        ),
        Step::<Command, S, Response>::Run(command, state)@ == Step::<CommandView, S::V, Reply>::Run(
            command@,
            state@,
        ),
{
}

/// What came back from a lookup stands for a failure, for no row or for the row.
pub proof fn law_found_stands_for_its_row<R: View>(row: R)
    ensures
        Found::<R>::Failed@ == Found::<R::V>::Failed,
        Found::<R>::Missing@ == Found::<R::V>::Missing,
        Found::<R>::Row(row)@ == Found::<R::V>::Row(row@),
{
}

/// A row stands for its columns.
pub proof fn law_rows_stand_for_their_columns(user: UserRow, session: SessionRow, grant: GrantRow)
    ensures
        user@.id == user.id,
        user@.password_hash == user.password_hash@,
        user@.enabled == user.enabled,
        session@.user_id == session.user_id,
        session@.username == session.username@,
        session@.enabled == session.enabled,
        session@.expires_at == session.expires_at,
        grant@.expires_at == grant.expires_at,
        grant@.login_ip == grant.login_ip@,
        grant@.enabled == grant.enabled,
{
}

/// A request that is under way stands for what it remembers.
pub proof fn law_states_stand_for_their_parts(
    lookup: LoginLookup,
    clear: LoginClear,
    store: LoginStore,
    user: SessionUser,
    post: BookPost,
    new_user: NewUser,
    change: UserChange,
)
    ensures
        lookup@.username == lookup.username@,
        lookup@.password == lookup.password@,
        clear@.username == clear.username@,
        clear@.user_id == clear.user_id,
        store@.username == store.username@,
        store@.token == store.token@,
        store@.expires_at == store.expires_at,
        user@.username == user.username@,
        user@.user_id == user.user_id,
        post@.data == post.data@,
        new_user@.username == new_user.username@,
        change@.username == change.username@,
{
}

/// A command that looks for a row stands for what it looks for.
pub proof fn law_lookups_stand_for_their_values(text: String, number: i64)
    ensures
        (Command::FindUser { username: text })@ == (CommandView::FindUser { username: text@ }),
        (Command::FindUserId { username: text })@ == (CommandView::FindUserId { username: text@ }),
        (Command::FindSession { token: text })@ == (CommandView::FindSession { token: text@ }),
        (Command::FindGrant { token: text })@ == (CommandView::FindGrant { token: text@ }),
        (Command::FindBook { user_id: number })@ == (CommandView::FindBook { user_id: number }),
{
}

/// A command that changes rows stands for the values that it writes and looks for.
pub proof fn law_changes_stand_for_their_values(
    text: String,
    other: String,
    number: i64,
    time: i64,
    later: i64,
)
    ensures
        (Command::DeleteUserSessions { user_id: number })@ == (CommandView::DeleteUserSessions {
            user_id: number,
        }),
        (Command::DeleteSession { token: text })@ == (CommandView::DeleteSession { token: text@ }),
        (Command::InsertSession {
            token: text,
            user_id: number,
            expires_at: later,
            login_ip: other,
            created_at: time,
        })@ == (CommandView::InsertSession {
            token: text@,
            user_id: number,
            expires_at: later,
            login_ip: other@,
            created_at: time,
        }),
        (Command::SaveBook { user_id: number, data: text, updated_at: time })@ == (
        CommandView::SaveBook { user_id: number, data: text@, updated_at: time }),
        (Command::InsertUser { username: text, password_hash: other, created_at: time })@ == (
        CommandView::InsertUser { username: text@, password_hash: other@, created_at: time }),
        (Command::SetPasswordHash { username: text, password_hash: other })@ == (
        CommandView::SetPasswordHash { username: text@, password_hash: other@ }),
        (Command::SetEnabled { username: text, enabled: number })@ == (CommandView::SetEnabled {
            username: text@,
            enabled: number,
        }),
{
}

/// A bound value stands for the text or the number.
pub proof fn law_bindings_stand_for_their_values(text: String, number: i64)
    ensures
        Binding::Text(text)@ == BindingView::Text(text@),
        Binding::Integer(number)@ == BindingView::Integer(number),
{
}

/// What the database tells is taken as it is.
pub proof fn law_told_is_what_came_back<T>(value: T, reason: String)
    ensures
        told(Ok::<T, String>(value)) == Ok::<T, Seq<char>>(value),
        told(Err::<T, String>(reason)) == Err::<T, Seq<char>>(reason@),
{
}

/// An error stands for its kind and what it names.
pub proof fn law_errors_stand_for_their_parts(error: bcrypt::BcryptError, text: String)
    ensures
        AdminError::Hashing(error)@ == AdminErrorView::Hashing(error),
        AdminError::Database(text)@ == AdminErrorView::Database(text@),
        AdminError::UserExists(text)@ == AdminErrorView::UserExists(text@),
        AdminError::UserMissing(text)@ == AdminErrorView::UserMissing(text@),
        AdminError::PasswordMismatch@ == AdminErrorView::PasswordMismatch,
        UsageError::MissingPort@ == UsageErrorView::MissingPort,
        UsageError::MissingDbPath@ == UsageErrorView::MissingDbPath,
        UsageError::UnknownArgument(text)@ == UsageErrorView::UnknownArgument(text@),
        UsageError::MissingUsername@ == UsageErrorView::MissingUsername,
{
}

/// What the command line asks for stands for its parts.
pub proof fn law_requests_of_the_command_line_stand_for_their_parts(
    options: Options,
    invocation: Invocation,
    task: AdminTask,
)
    ensures
        options@.port == options.port,
        options@.db_path == options.db_path@,
        options@.trusted_proxy == options.trusted_proxy,
        match invocation {
            Invocation::Admin { cmd, username, options } => invocation@ == (InvocationView::Admin {
                cmd,
                username: username@,
                options: options@,
            }),
            Invocation::Serve { options } => invocation@ == (InvocationView::Serve {
                options: options@,
            }),
        },
        match task {
            AdminTask::AddUser { username, password } => task@ == (AdminTaskView::AddUser {
                username: username@,
                password: password@,
            }),
            AdminTask::SetPassword { username, password } => task@ == (AdminTaskView::SetPassword {
                username: username@,
                password: password@,
            }),
            AdminTask::SetEnabled { username, enabled } => task@ == (AdminTaskView::SetEnabled {
                username: username@,
                enabled,
            }),
        },
{
}

/// Arguments stand for their texts, each in its place.
pub proof fn law_arguments_stand_for_their_texts(args: Seq<String>, i: int)
    ensures
        texts(args).len() == args.len(),
        0 <= i < args.len() ==> texts(args)[i] == args[i]@,
{
}

/// A step on the way to an open database stands for its path, its URL or its statements.
pub proof fn law_open_steps_stand_for_their_texts(text: String, statements: &'static str)
    ensures
        OpenStep::CreateFile(text)@ == OpenStepView::CreateFile(text@),
        OpenStep::Connect(text)@ == OpenStepView::Connect(text@),
        OpenStep::Execute(statements)@ == OpenStepView::Execute(statements@),
{
}

} // verus!
