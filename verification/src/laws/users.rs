//! What holds of managing users.

use vstd::prelude::*;

use crate::admin::{added, changed, cleared, enabled_mark, identified, AdminErrorView};
use crate::json::Json;
use crate::laws::login::law_user_logs_in_with_name_and_password;
use crate::laws::text::{law_text_occurs_between, law_trim_takes_white_space_off};
use crate::options::{task_of, AdminCmd, AdminTaskView};
use crate::password::is_hash_of;
use crate::runs::{add_user_run, login_run, set_password_run, ChangeRun, LoginRun};
use crate::store::{apply, CommandView, Store};
use crate::text::{is_white_space, trimmed};

verus! {

/// The addition of a user succeeds if the database takes it. A refusal whose words hold `UNIQUE`
/// says that the name is taken; any other is passed on in its own words.
pub proof fn law_refused_user_exists_or_the_database_failed(
    username: Seq<char>,
    before: Seq<char>,
    behind: Seq<char>,
    reason: Seq<char>,
)
    ensures
        added(username, Ok(())) == Ok::<(), AdminErrorView>(()),
        added(username, Err(before + "UNIQUE"@ + behind)) == Err::<(), _>(
            AdminErrorView::UserExists(username),
        ),
        (forall|a: Seq<char>, b: Seq<char>| reason != #[trigger] (a + "UNIQUE"@ + b)) ==> added(
            username,
            Err(reason),
        ) == Err::<(), _>(AdminErrorView::Database(reason)),
{
    law_text_occurs_between(before + "UNIQUE"@ + behind, "UNIQUE"@);
    law_text_occurs_between(reason, "UNIQUE"@);
}

/// A change goes on with the number of the user who was changed, and then with that user's
/// sessions. If no row changed there is no such user; a failure of the database is passed on in its
/// own words.
pub proof fn law_change_goes_on_with_the_changed_user(
    username: Seq<char>,
    rows: u64,
    user_id: i64,
    reason: Seq<char>,
)
    ensures
        rows > 0 ==> changed(username, Ok(rows)) == Ok::<_, AdminErrorView>(
            CommandView::FindUserId { username },
        ),
        changed(username, Ok(0)) == Err::<CommandView, _>(AdminErrorView::UserMissing(username)),
        changed(username, Err(reason)) == Err::<CommandView, _>(AdminErrorView::Database(reason)),
        identified(Ok(user_id)) == Ok::<_, AdminErrorView>(
            CommandView::DeleteUserSessions { user_id },
        ),
        identified(Err(reason)) == Err::<CommandView, _>(AdminErrorView::Database(reason)),
        cleared(Ok(())) == Ok::<(), AdminErrorView>(()),
        cleared(Err(reason)) == Err::<(), _>(AdminErrorView::Database(reason)),
{
}

/// Users that are enabled are marked by one, others by zero.
pub proof fn law_enabled_users_are_marked_by_one()
    ensures
        enabled_mark(true) == 1,
        enabled_mark(false) == 0,
{
}

/// A user who is to be added is given the password that was typed in both times, all of it; if it
/// was not the same both times, nobody is added. A new password is the one that was typed in.
pub proof fn law_typed_password_is_the_password(
    username: Seq<char>,
    first: Seq<char>,
    second: Seq<char>,
)
    ensures
        first == second ==> task_of(AdminCmd::AddUser, username, seq![first, second]) == Ok::<
            _,
            AdminErrorView,
        >(AdminTaskView::AddUser { username, password: first }),
        first != second ==> task_of(AdminCmd::AddUser, username, seq![first, second]) == Err::<
            AdminTaskView,
            _,
        >(AdminErrorView::PasswordMismatch),
        task_of(AdminCmd::SetPassword, username, seq![first]) == Ok::<_, AdminErrorView>(
            AdminTaskView::SetPassword { username, password: first },
        ),
        task_of(AdminCmd::EnableUser, username, seq![]) == Ok::<_, AdminErrorView>(
            AdminTaskView::SetEnabled { username, enabled: true },
        ),
        task_of(AdminCmd::DisableUser, username, seq![]) == Ok::<_, AdminErrorView>(
            AdminTaskView::SetEnabled { username, enabled: false },
        ),
{
}

/// For a new user a password is asked for twice, for a new password once, and else never.
pub proof fn law_password_of_a_new_user_is_asked_for_twice()
    ensures
        AdminCmd::AddUser.prompts() == 2,
        AdminCmd::SetPassword.prompts() == 1,
        AdminCmd::DisableUser.prompts() == 0,
        AdminCmd::EnableUser.prompts() == 0,
{
}

/// The password on a typed line is the line without the white space around it.
pub proof fn law_typed_line_holds_the_password(
    front: Seq<char>,
    password: Seq<char>,
    back: Seq<char>,
)
    requires
        forall|i: int| 0 <= i < front.len() ==> is_white_space(#[trigger] front[i]),
        forall|i: int| 0 <= i < back.len() ==> is_white_space(#[trigger] back[i]),
        password.len() > 0 ==> !is_white_space(password[0]) && !is_white_space(password.last()),
    ensures
        trimmed(front + password + back) == password,
{
    law_trim_takes_white_space_off(front, password, back);
}

/// A user who has been added with a password that was typed in twice logs in with the name that was
/// given and with that password.
pub proof fn law_added_user_logs_in_with_the_typed_password(
    store: Store,
    username: Seq<char>,
    password: Seq<char>,
    password_hash: Seq<char>,
    created_at: i64,
    reason: Seq<char>,
    members: Map<Seq<char>, Json>,
    run: LoginRun,
    expires_at: i64,
)
    requires
        store.is_valid(),
        ({
            &&& task_of(AdminCmd::AddUser, username, seq![password, password]) matches Ok(
                AdminTaskView::AddUser { username: name, password: typed },
            )
            &&& is_hash_of(password_hash, typed)
            &&& add_user_run(store, name, password_hash, created_at, false, reason).1 is Ok
        }),
        username.len() > 0,
        password.len() > 0,
        members.contains_key("username"@),
        members["username"@] == Json::Text(username),
        members.contains_key("password"@),
        members["password"@] == Json::Text(password),
        !run.lookup_fails && !run.clear_fails && !run.insert_fails,
        !store.sessions.contains_key(run.token),
        expires_at == run.issued_at + 259200,
    ensures
        ({
            let added = add_user_run(store, username, password_hash, created_at, false, reason).0;
            login_run(added, Json::Object(members), run).1.status == 200
        }),
{
    law_typed_password_is_the_password(username, password, password);
    let command = CommandView::InsertUser { username, password_hash, created_at };
    let added = add_user_run(store, username, password_hash, created_at, false, reason).0;
    crate::laws::law_commands_keep_tables_valid(store, command, false);
    law_user_logs_in_with_name_and_password(
        added,
        store.next_id,
        members,
        username,
        password,
        run,
        expires_at,
        run.token,
    );
}

/// A user whose password has been changed to one that was typed in logs in with that password.
pub proof fn law_changed_user_logs_in_with_the_typed_password(
    store: Store,
    id: i64,
    username: Seq<char>,
    password: Seq<char>,
    password_hash: Seq<char>,
    change: ChangeRun,
    members: Map<Seq<char>, Json>,
    run: LoginRun,
    expires_at: i64,
)
    requires
        store.is_valid(),
        store.users.contains_key(id),
        store.users[id].username == username,
        store.users[id].enabled != 0,
        ({
            &&& task_of(AdminCmd::SetPassword, username, seq![password]) matches Ok(
                AdminTaskView::SetPassword { username: name, password: typed },
            )
            &&& is_hash_of(password_hash, typed)
            &&& set_password_run(store, name, password_hash, change).1 is Ok
        }),
        username.len() > 0,
        password.len() > 0,
        members.contains_key("username"@),
        members["username"@] == Json::Text(username),
        members.contains_key("password"@),
        members["password"@] == Json::Text(password),
        !run.lookup_fails && !run.clear_fails && !run.insert_fails,
        !store.sessions.contains_key(run.token),
        expires_at == run.issued_at + 259200,
    ensures
        ({
            let after = set_password_run(store, username, password_hash, change).0;
            login_run(after, Json::Object(members), run).1.status == 200
        }),
{
    law_typed_password_is_the_password(username, password, password);
    let command = CommandView::SetPasswordHash { username, password_hash };
    assert(store.is_user(id, username));
    let found = store.user_id(username);
    assert(store.is_user(found, username));
    assert(store.users[found].username == store.users[id].username);
    crate::laws::law_commands_keep_tables_valid(store, command, false);
    let after = set_password_run(store, username, password_hash, change).0;
    assert(after.users == apply(store, command)->0.users);
    assert(after.is_valid());
    law_user_logs_in_with_name_and_password(
        after,
        id,
        members,
        username,
        password,
        run,
        expires_at,
        run.token,
    );
}

} // verus!
