//! Managing users.
//!
//! To change a user takes three commands: the change itself, a look at the user's number, and the
//! end of all the user's sessions, so that the change takes effect at once. A change succeeds only
//! if all three do.

use bcrypt::BcryptError;
use std::time::SystemTime;
use vstd::prelude::*;

use crate::clock::{is_reading, now, reading_stamp};
use crate::password::{hash_password, is_hash_of, is_hashed};
use crate::store::{Command, CommandView};
use crate::text::{contains, contains_text};

verus! {

/// Why a user could not be added or changed.
#[derive(Debug)]
pub enum AdminError {
    /// The password could not be hashed.
    Hashing(BcryptError),
    /// The database failed, for this reason.
    Database(String),
    /// There is a user of this name already.
    UserExists(String),
    /// There is no user of this name.
    UserMissing(String),
    /// The password was not the same both times.
    PasswordMismatch,
}

/// An [`AdminError`] as a mathematical value.
pub enum AdminErrorView {
    Hashing(BcryptError),
    Database(Seq<char>),
    UserExists(Seq<char>),
    UserMissing(Seq<char>),
    PasswordMismatch,
}

impl View for AdminError {
    type V = AdminErrorView;

    open spec fn view(&self) -> AdminErrorView {
        match *self {
            AdminError::Hashing(error) => AdminErrorView::Hashing(error),
            AdminError::Database(reason) => AdminErrorView::Database(reason@),
            AdminError::UserExists(username) => AdminErrorView::UserExists(username@),
            AdminError::UserMissing(username) => AdminErrorView::UserMissing(username@),
            AdminError::PasswordMismatch => AdminErrorView::PasswordMismatch,
        }
    }
}

impl AdminError {
    /// The error in words.
    pub fn message(&self) -> (res: String)
        ensures
            match self@ {
                AdminErrorView::Hashing(error) => vstd::string::to_string_from_display_ensures::<
                    BcryptError,
                >(&error, res),
                AdminErrorView::Database(reason) => res@ == reason,
                AdminErrorView::UserExists(username) => res@ == "用户已存在: "@ + username,
                AdminErrorView::UserMissing(username) => res@ == "用户不存在: "@ + username,
                AdminErrorView::PasswordMismatch => res@ == "两次输入的密码不一致"@,
            },
    {
        match self {
            AdminError::Hashing(error) => error.to_string(),
            AdminError::Database(reason) => reason.clone(),
            AdminError::UserExists(username) => "用户已存在: ".to_owned().concat(username.as_str()),
            AdminError::UserMissing(username) => "用户不存在: ".to_owned().concat(username.as_str()),
            AdminError::PasswordMismatch => "两次输入的密码不一致".to_owned(),
        }
    }
}

/// A new user, who waits to be stored.
#[derive(Debug)]
pub struct NewUser {
    pub username: String,
}

/// A [`NewUser`] as a mathematical value.
pub struct NewUserView {
    pub username: Seq<char>,
}

impl View for NewUser {
    type V = NewUserView;

    open spec fn view(&self) -> NewUserView {
        NewUserView { username: self.username@ }
    }
}

/// A change of a user, which waits to be stored.
#[derive(Debug)]
pub struct UserChange {
    pub username: String,
}

/// A [`UserChange`] as a mathematical value.
pub struct UserChangeView {
    pub username: Seq<char>,
}

impl View for UserChange {
    type V = UserChangeView;

    open spec fn view(&self) -> UserChangeView {
        UserChangeView { username: self.username@ }
    }
}

/// A change of a user that has been stored, and waits for the user's number.
#[derive(Debug)]
pub struct UserChanged;

/// What came back from the database, with a failure by its reason.
pub open spec fn told<T>(result: Result<T, String>) -> Result<T, Seq<char>> {
    match result {
        Ok(value) => Ok(value),
        Err(reason) => Err(reason@),
    }
}

/// What came of adding a user, given how the database took it. A failure that speaks of a `UNIQUE`
/// constraint says that the name is taken.
pub open spec fn added(username: Seq<char>, stored: Result<(), Seq<char>>) -> Result<
    (),
    AdminErrorView,
> {
    match stored {
        Ok(_) => Ok(()),
        Err(reason) => Err(
            if contains_text(reason, "UNIQUE"@) {
                AdminErrorView::UserExists(username)
            } else {
                AdminErrorView::Database(reason)
            },
        ),
    }
}

/// What to run once a user was changed, given how many rows changed.
pub open spec fn changed(username: Seq<char>, stored: Result<u64, Seq<char>>) -> Result<
    CommandView,
    AdminErrorView,
> {
    match stored {
        Err(reason) => Err(AdminErrorView::Database(reason)),
        Ok(rows) => if rows == 0 {
            Err(AdminErrorView::UserMissing(username))
        } else {
            Ok(CommandView::FindUserId { username })
        },
    }
}

/// What to run once the number of a changed user is known.
pub open spec fn identified(found: Result<i64, Seq<char>>) -> Result<CommandView, AdminErrorView> {
    match found {
        Err(reason) => Err(AdminErrorView::Database(reason)),
        Ok(user_id) => Ok(CommandView::DeleteUserSessions { user_id }),
    }
}

/// What came of a change of a user, given how the database took the end of the user's sessions.
pub open spec fn cleared(ended: Result<(), Seq<char>>) -> Result<(), AdminErrorView> {
    match ended {
        Err(reason) => Err(AdminErrorView::Database(reason)),
        Ok(_) => Ok(()),
    }
}

/// The command that adds a user with this password hash at the time `created_at`.
pub fn add_user_hashed(username: &str, password_hash: String, created_at: i64) -> (res: (
    Command,
    NewUser,
))
    ensures
        res.0@ == (CommandView::InsertUser {
            username: username@,
            password_hash: password_hash@,
            created_at,
        }),
        res.1@ == (NewUserView { username: username@ }),
{
    (
        Command::InsertUser { username: username.to_owned(), password_hash, created_at },
        NewUser { username: username.to_owned() },
    )
}

/// Starts to add an enabled user with this password.
pub fn add_user(username: &str, password: &str) -> (res: Result<(Command, NewUser), AdminError>)
    ensures
        match res {
            Ok((command, user)) => {
                &&& exists|hash: String, reading: SystemTime|
                    #![trigger is_hash_of(hash@, password@), is_reading(reading)]
                    {
                        &&& is_hash_of(hash@, password@)
                        &&& is_hashed(password@, Ok(hash))
                        &&& is_reading(reading)
                        &&& command@ == (CommandView::InsertUser {
                            username: username@,
                            password_hash: hash@,
                            created_at: reading_stamp(reading) as i64,
                        })
                    }
                &&& user@ == (NewUserView { username: username@ })
            },
            Err(error) => error@ matches AdminErrorView::Hashing(cause) && is_hashed(
                password@,
                Err(cause),
            ),
        },
{
    match hash_password(password) {
        Ok(hash) => {
            assert(is_hash_of(hash@, password@));
            Ok(add_user_hashed(username, hash, now()))
        },
        Err(error) => Err(AdminError::Hashing(error)),
    }
}

/// Ends the addition of a user, given how the database took it.
pub fn add_user_stored(user: NewUser, stored: Result<(), String>) -> (res: Result<(), AdminError>)
    ensures
        match res {
            Ok(_) => added(user@.username, told(stored)) is Ok,
            Err(error) => added(user@.username, told(stored)) == Err::<(), _>(error@),
        },
{
    match stored {
        Ok(_) => Ok(()),
        Err(reason) => if contains(reason.as_str(), "UNIQUE") {
            Err(AdminError::UserExists(user.username))
        } else {
            Err(AdminError::Database(reason))
        },
    }
}

/// The command that gives a user the password with this hash.
pub fn set_password_hashed(username: &str, password_hash: String) -> (res: (Command, UserChange))
    ensures
        res.0@ == (CommandView::SetPasswordHash {
            username: username@,
            password_hash: password_hash@,
        }),
        res.1@ == (UserChangeView { username: username@ }),
{
    (
        Command::SetPasswordHash { username: username.to_owned(), password_hash },
        UserChange { username: username.to_owned() },
    )
}

/// Starts to give a user another password. All sessions of the user are to end with that.
pub fn set_password(username: &str, password: &str) -> (res: Result<
    (Command, UserChange),
    AdminError,
>)
    ensures
        match res {
            Ok((command, change)) => {
                &&& command@ matches CommandView::SetPasswordHash { username: name, password_hash }
                &&& name == username@
                &&& is_hash_of(password_hash, password@)
                &&& exists|hash: String| #[trigger]
                    is_hashed(password@, Ok(hash)) && hash@ == password_hash
                &&& change@ == (UserChangeView { username: username@ })
            },
            Err(error) => error@ matches AdminErrorView::Hashing(cause) && is_hashed(
                password@,
                Err(cause),
            ),
        },
{
    match hash_password(password) {
        Ok(hash) => Ok(set_password_hashed(username, hash)),
        Err(error) => Err(AdminError::Hashing(error)),
    }
}

/// How the database marks users that are enabled and those that are not.
pub open spec fn enabled_mark(enabled: bool) -> i64 {
    if enabled {
        1
    } else {
        0
    }
}

/// Starts to enable or disable a user. All sessions of the user are to end with that.
pub fn set_user_enabled(username: &str, enabled: bool) -> (res: (Command, UserChange))
    ensures
        res.0@ == (CommandView::SetEnabled {
            username: username@,
            enabled: enabled_mark(enabled),
        }),
        res.1@ == (UserChangeView { username: username@ }),
{
    let mark: i64 = if enabled {
        1
    } else {
        0
    };
    (
        Command::SetEnabled { username: username.to_owned(), enabled: mark },
        UserChange { username: username.to_owned() },
    )
}

/// Goes on with a change of a user, given how many rows the database changed.
pub fn user_changed(change: UserChange, stored: Result<u64, String>) -> (res: Result<
    (Command, UserChanged),
    AdminError,
>)
    ensures
        match res {
            Ok((command, _)) => changed(change@.username, told(stored)) == Ok::<
                _,
                AdminErrorView,
            >(command@),
            Err(error) => changed(change@.username, told(stored)) == Err::<CommandView, _>(error@),
        },
{
    match stored {
        Err(reason) => Err(AdminError::Database(reason)),
        Ok(rows) => if rows == 0 {
            Err(AdminError::UserMissing(change.username))
        } else {
            Ok((Command::FindUserId { username: change.username }, UserChanged))
        },
    }
}

/// Goes on with a change of a user, given the user's number: ends the user's sessions.
pub fn user_identified(_changed: UserChanged, found: Result<i64, String>) -> (res: Result<
    Command,
    AdminError,
>)
    ensures
        match res {
            Ok(command) => identified(told(found)) == Ok::<_, AdminErrorView>(command@),
            Err(error) => identified(told(found)) == Err::<CommandView, _>(error@),
        },
{
    match found {
        Err(reason) => Err(AdminError::Database(reason)),
        Ok(user_id) => Ok(Command::DeleteUserSessions { user_id }),
    }
}

/// Ends a change of a user, given how the database took the end of the user's sessions. Success
/// means that no earlier session of the user is left.
pub fn user_cleared(ended: Result<(), String>) -> (res: Result<(), AdminError>)
    ensures
        match res {
            Ok(_) => cleared(told(ended)) is Ok,
            Err(error) => cleared(told(ended)) == Err::<(), _>(error@),
        },
{
    match ended {
        Err(reason) => Err(AdminError::Database(reason)),
        Ok(_) => Ok(()),
    }
}

} // verus!
