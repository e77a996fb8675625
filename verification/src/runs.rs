//! Whole requests, run on the tables: each decision of the library, and in between what the
//! database makes of the commands.
//!
//! Any command may fail. A run is told which ones do, along with what else it cannot know by
//! itself: the time, and what was drawn at random.

use vstd::prelude::*;

use crate::address_book::{get_reply, get_user_step, post_reply, post_step, post_user_step};
use crate::admin::{added, changed, cleared, enabled_mark, identified, AdminErrorView};
use crate::json::Json;
use crate::login::{login_reply, login_session_step, login_step, login_user_step};
use crate::reply::{database_failure, empty_reply, Reply, Step, OK};
use crate::server::{open_steps, OpenStepView};
use crate::session::{current_user_reply, logout_step, session_step, valid_user, verify_reply};
use crate::store::{answer, execute, CommandView, Database, Store};

verus! {

/// What opening a database cannot know by itself: how far it gets.
pub struct OpenRun {
    /// So many steps are carried out.
    pub steps: nat,
    /// Where the step after them runs statements, so many of those are carried out all the same.
    pub statements: nat,
}

/// What a step on the way to an open database makes of the file at its path; `None` where there is
/// no file. The statements that it runs are those of the schema.
pub open spec fn step_done(file: Option<Database>, step: OpenStepView) -> Option<Database> {
    match step {
        OpenStepView::CreateFile(_) => Some(Database::empty()),
        OpenStepView::Connect(_) => file,
        OpenStepView::Execute(_) => statements_done(file, 3),
    }
}

/// What the first of the statements of the schema make of a file.
pub open spec fn statements_done(file: Option<Database>, statements: nat) -> Option<Database> {
    match file {
        Some(database) => Some(database.created(statements)),
        None => None,
    }
}

/// The opening of a database by these steps: the file after it, and whether it succeeds.
pub open spec fn steps_run(file: Option<Database>, steps: Seq<OpenStepView>, run: OpenRun) -> (
    Option<Database>,
    bool,
)
    decreases steps.len(),
{
    if steps.len() == 0 {
        (file, true)
    } else if run.steps == 0 {
        match steps[0] {
            OpenStepView::Execute(_) => (statements_done(file, run.statements), false),
            _ => (file, false),
        }
    } else {
        steps_run(
            step_done(file, steps[0]),
            steps.skip(1),
            OpenRun { steps: (run.steps - 1) as nat, ..run },
        )
    }
}

/// The opening of the database at `path`: the file after it, and whether it succeeds.
pub open spec fn open_run(file: Option<Database>, path: Seq<char>, run: OpenRun) -> (
    Option<Database>,
    bool,
) {
    steps_run(file, open_steps(path, file is Some), run)
}

/// What a login cannot know by itself.
pub struct LoginRun {
    pub lookup_fails: bool,
    pub clear_fails: bool,
    pub insert_fails: bool,
    pub token: Seq<char>,
    pub issued_at: i64,
    pub created_at: i64,
    pub login_ip: Seq<char>,
}

/// A login with this body.
pub open spec fn login_run(store: Store, body: Json, run: LoginRun) -> (Store, Reply) {
    match login_step(body) {
        Step::Reply(reply) => (store, reply),
        Step::Run(command, lookup) => {
            let found = store.find_user(command->FindUser_username);
            let (looked_up, _) = execute(store, command, run.lookup_fails);
            match login_user_step(lookup, answer(found, run.lookup_fails)) {
                Step::Reply(reply) => (looked_up, reply),
                Step::Run(command, clear) => {
                    let (cleared_store, ended) = execute(looked_up, command, run.clear_fails);
                    if ended {
                        let (command, pending) = login_session_step(
                            clear,
                            run.login_ip,
                            run.token,
                            run.issued_at,
                            run.created_at,
                        );
                        let (after, stored) = execute(cleared_store, command, run.insert_fails);
                        (after, login_reply(pending, stored))
                    } else {
                        (cleared_store, database_failure())
                    }
                },
            }
        },
    }
}

/// A request for the current user at the time `now`.
pub open spec fn current_user_run(
    store: Store,
    headers: Map<Seq<char>, Seq<u8>>,
    now: i64,
    fails: bool,
) -> (Store, Reply) {
    match session_step(headers) {
        Step::Reply(reply) => (store, reply),
        Step::Run(command, _) => {
            let found = store.find_session(command->FindSession_token);
            let (after, _) = execute(store, command, fails);
            (after, current_user_reply(valid_user(answer(found, fails), now)))
        },
    }
}

/// A logout.
pub open spec fn logout_run(store: Store, headers: Map<Seq<char>, Seq<u8>>, fails: bool) -> (
    Store,
    Reply,
) {
    match logout_step(headers) {
        Step::Reply(reply) => (store, reply),
        Step::Run(command, _) => (execute(store, command, fails).0, empty_reply(OK)),
    }
}

/// The question whether a session is valid at the time `now` for a client at `ip`.
pub open spec fn verify_run(
    store: Store,
    token: Seq<char>,
    ip: Seq<char>,
    now: i64,
    fails: bool,
) -> (Store, Reply) {
    let (after, _) = execute(store, CommandView::FindGrant { token }, fails);
    (after, verify_reply(answer(store.find_grant(token), fails), ip, now))
}

/// A request for the address book at the time `now`.
pub open spec fn get_ab_run(
    store: Store,
    headers: Map<Seq<char>, Seq<u8>>,
    now: i64,
    session_fails: bool,
    book_fails: bool,
) -> (Store, Reply) {
    match session_step(headers) {
        Step::Reply(reply) => (store, reply),
        Step::Run(command, _) => {
            let found = store.find_session(command->FindSession_token);
            let (identified, _) = execute(store, command, session_fails);
            match get_user_step(valid_user(answer(found, session_fails), now)) {
                Step::Reply(reply) => (identified, reply),
                Step::Run(command, _) => {
                    let book = identified.find_book(command->FindBook_user_id);
                    let (after, _) = execute(identified, command, book_fails);
                    (after, get_reply(answer(book, book_fails)))
                },
            }
        },
    }
}

/// A request to store an address book at the time `now`.
pub open spec fn post_ab_run(
    store: Store,
    headers: Map<Seq<char>, Seq<u8>>,
    body: Json,
    now: i64,
    updated_at: i64,
    session_fails: bool,
    book_fails: bool,
) -> (Store, Reply) {
    match post_step(headers, body) {
        Step::Reply(reply) => (store, reply),
        Step::Run(command, post) => {
            let found = store.find_session(command->FindSession_token);
            let (identified, _) = execute(store, command, session_fails);
            match post_user_step(post, valid_user(answer(found, session_fails), now), updated_at) {
                Step::Reply(reply) => (identified, reply),
                Step::Run(command, _) => {
                    let (after, stored) = execute(identified, command, book_fails);
                    (after, post_reply(stored))
                },
            }
        },
    }
}

/// The addition of a user. If the database refuses it, it gives this reason.
pub open spec fn add_user_run(
    store: Store,
    username: Seq<char>,
    password_hash: Seq<char>,
    created_at: i64,
    fails: bool,
    reason: Seq<char>,
) -> (Store, Result<(), AdminErrorView>) {
    let command = CommandView::InsertUser { username, password_hash, created_at };
    let (after, stored) = execute(store, command, fails);
    (
        after,
        added(
            username,
            if stored {
                Ok(())
            } else {
                Err(reason)
            },
        ),
    )
}

/// What a change of a user cannot know by itself.
pub struct ChangeRun {
    pub change_fails: bool,
    pub lookup_fails: bool,
    pub clear_fails: bool,
    pub reason: Seq<char>,
}

/// A change of a user by this command.
pub open spec fn change_run(
    store: Store,
    username: Seq<char>,
    command: CommandView,
    run: ChangeRun,
) -> (Store, Result<(), AdminErrorView>) {
    let rows: u64 = if store.has_user(username) {
        1
    } else {
        0
    };
    let (changed_store, stored) = execute(store, command, run.change_fails);
    match changed(
        username,
        if stored {
            Ok(rows)
        } else {
            Err(run.reason)
        },
    ) {
        Err(error) => (changed_store, Err(error)),
        Ok(_) => match identified(
            if run.lookup_fails || !changed_store.has_user(username) {
                Err(run.reason)
            } else {
                Ok(changed_store.user_id(username))
            },
        ) {
            Err(error) => (changed_store, Err(error)),
            Ok(clear_command) => {
                let (after, ended) = execute(changed_store, clear_command, run.clear_fails);
                (
                    after,
                    cleared(
                        if ended {
                            Ok(())
                        } else {
                            Err(run.reason)
                        },
                    ),
                )
            },
        },
    }
}

/// The change of a user's password, to one with this hash.
pub open spec fn set_password_run(
    store: Store,
    username: Seq<char>,
    password_hash: Seq<char>,
    run: ChangeRun,
) -> (Store, Result<(), AdminErrorView>) {
    change_run(store, username, CommandView::SetPasswordHash { username, password_hash }, run)
}

/// The enabling or disabling of a user.
pub open spec fn set_enabled_run(
    store: Store,
    username: Seq<char>,
    enabled: bool,
    run: ChangeRun,
) -> (Store, Result<(), AdminErrorView>) {
    change_run(
        store,
        username,
        CommandView::SetEnabled { username, enabled: enabled_mark(enabled) },
        run,
    )
}

} // verus!
