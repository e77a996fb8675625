//! The database: its tables, the statements that the service runs on them, and what each
//! statement does.
//!
//! A [`Command`] is one SQL statement with the values bound to it. The service decides which
//! commands to run; whoever holds the connection runs them and reports what came back. [`Store`]
//! models the tables, and [`apply`] and the `find_` functions give the meaning of the commands on
//! that model. [`Database`] models a database in which tables may be missing yet, and
//! [`Database::created`] what the statements of [`schema`] do to it.

use vstd::prelude::*;

verus! {

/// The statements that create the tables of a new database.
pub open spec fn schema_text() -> Seq<char> {
    "create table if not exists users (
            id integer primary key autoincrement,
            username varchar(100) not null unique,
            password_hash varchar(200) not null,
            enabled integer not null default 1,
            created_at integer not null
        );
        create table if not exists sessions (
            token varchar(128) primary key not null,
            user_id integer not null,
            expires_at integer not null,
            login_ip varchar(100) not null,
            created_at integer not null
        );
        create table if not exists ab_data (
            user_id integer primary key not null,
            data text not null,
            updated_at integer not null
        );"@
}

/// The statements that create the tables of a new database.
pub fn schema() -> (res: &'static str)
    ensures
        res@ == schema_text(),
{
    "create table if not exists users (
            id integer primary key autoincrement,
            username varchar(100) not null unique,
            password_hash varchar(200) not null,
            enabled integer not null default 1,
            created_at integer not null
        );
        create table if not exists sessions (
            token varchar(128) primary key not null,
            user_id integer not null,
            expires_at integer not null,
            login_ip varchar(100) not null,
            created_at integer not null
        );
        create table if not exists ab_data (
            user_id integer primary key not null,
            data text not null,
            updated_at integer not null
        );"
}

/// One SQL statement with the values bound to it.
#[derive(Debug)]
pub enum Command {
    /// The user with this name.
    FindUser { username: String },
    /// The number of the user with this name.
    FindUserId { username: String },
    /// The session with this token, and its user.
    FindSession { token: String },
    /// The terms of the session with this token.
    FindGrant { token: String },
    /// The address book of a user.
    FindBook { user_id: i64 },
    /// Ends all sessions of a user.
    DeleteUserSessions { user_id: i64 },
    /// Ends one session.
    DeleteSession { token: String },
    /// Opens a session.
    InsertSession {
        token: String,
        user_id: i64,
        expires_at: i64,
        login_ip: String,
        created_at: i64,
    },
    /// Stores the address book of a user in place of an earlier one.
    SaveBook { user_id: i64, data: String, updated_at: i64 },
    /// Adds an enabled user.
    InsertUser { username: String, password_hash: String, created_at: i64 },
    /// Gives a user another password.
    SetPasswordHash { username: String, password_hash: String },
    /// Enables or disables a user.
    SetEnabled { username: String, enabled: i64 },
}

/// A [`Command`] as a mathematical value.
pub enum CommandView {
    FindUser { username: Seq<char> },
    FindUserId { username: Seq<char> },
    FindSession { token: Seq<char> },
    FindGrant { token: Seq<char> },
    FindBook { user_id: i64 },
    DeleteUserSessions { user_id: i64 },
    DeleteSession { token: Seq<char> },
    InsertSession {
        token: Seq<char>,
        user_id: i64,
        expires_at: i64,
        login_ip: Seq<char>,
        created_at: i64,
    },
    SaveBook { user_id: i64, data: Seq<char>, updated_at: i64 },
    InsertUser { username: Seq<char>, password_hash: Seq<char>, created_at: i64 },
    SetPasswordHash { username: Seq<char>, password_hash: Seq<char> },
    SetEnabled { username: Seq<char>, enabled: i64 },
}

impl View for Command {
    type V = CommandView;

    open spec fn view(&self) -> CommandView {
        match *self {
            Command::FindUser { username } => CommandView::FindUser { username: username@ },
            Command::FindUserId { username } => CommandView::FindUserId { username: username@ },
            Command::FindSession { token } => CommandView::FindSession { token: token@ },
            Command::FindGrant { token } => CommandView::FindGrant { token: token@ },
            Command::FindBook { user_id } => CommandView::FindBook { user_id },
            Command::DeleteUserSessions { user_id } => CommandView::DeleteUserSessions { user_id },
            Command::DeleteSession { token } => CommandView::DeleteSession { token: token@ },
            Command::InsertSession {
                token,
                user_id,
                expires_at,
                login_ip,
                created_at,
            } => CommandView::InsertSession {
                token: token@,
                user_id,
                expires_at,
                login_ip: login_ip@,
                created_at,
            },
            Command::SaveBook { user_id, data, updated_at } => CommandView::SaveBook {
                user_id,
                data: data@,
                updated_at,
            },
            Command::InsertUser { username, password_hash, created_at } => CommandView::InsertUser {
                username: username@,
                password_hash: password_hash@,
                created_at,
            },
            Command::SetPasswordHash { username, password_hash } => CommandView::SetPasswordHash {
                username: username@,
                password_hash: password_hash@,
            },
            Command::SetEnabled { username, enabled } => CommandView::SetEnabled {
                username: username@,
                enabled,
            },
        }
    }
}

/// A value bound to a placeholder of a statement.
#[derive(Debug, PartialEq, Eq)]
pub enum Binding {
    Text(String),
    Integer(i64),
}

/// A [`Binding`] as a mathematical value.
pub enum BindingView {
    Text(Seq<char>),
    Integer(i64),
}

impl View for Binding {
    type V = BindingView;

    open spec fn view(&self) -> BindingView {
        match *self {
            Binding::Text(text) => BindingView::Text(text@),
            Binding::Integer(n) => BindingView::Integer(n),
        }
    }
}

impl CommandView {
    /// The SQL statement of a command, with a placeholder for each bound value.
    pub open spec fn statement(self) -> Seq<char> {
        match self {
            CommandView::FindUser { .. } =>
                "select id, password_hash, enabled from users where username = ?"@,
            CommandView::FindUserId { .. } => "select id from users where username = ?"@,
            CommandView::FindSession { .. } =>
                "select u.id, u.username, u.enabled, s.expires_at from sessions s join users u on s.user_id = u.id where s.token = ?"@,
            CommandView::FindGrant { .. } =>
                "select s.expires_at, s.login_ip, u.enabled from sessions s join users u on s.user_id = u.id where s.token = ?"@,
            CommandView::FindBook { .. } => "select data from ab_data where user_id = ?"@,
            CommandView::DeleteUserSessions { .. } => "delete from sessions where user_id = ?"@,
            CommandView::DeleteSession { .. } => "delete from sessions where token = ?"@,
            CommandView::InsertSession { .. } =>
                "insert into sessions (token, user_id, expires_at, login_ip, created_at) values (?, ?, ?, ?, ?)"@,
            CommandView::SaveBook { .. } =>
                "insert into ab_data (user_id, data, updated_at) values (?, ?, ?)
                 on conflict(user_id) do update set data = excluded.data, updated_at = excluded.updated_at"@,
            CommandView::InsertUser { .. } =>
                "insert into users (username, password_hash, enabled, created_at) values (?, ?, 1, ?)"@,
            CommandView::SetPasswordHash { .. } =>
                "update users set password_hash = ? where username = ?"@,
            CommandView::SetEnabled { .. } => "update users set enabled = ? where username = ?"@,
        }
    }

    /// The values bound to the placeholders, in their order.
    pub open spec fn bound(self) -> Seq<BindingView> {
        match self {
            CommandView::FindUser { username } => seq![BindingView::Text(username)],
            CommandView::FindUserId { username } => seq![BindingView::Text(username)],
            CommandView::FindSession { token } => seq![BindingView::Text(token)],
            CommandView::FindGrant { token } => seq![BindingView::Text(token)],
            CommandView::FindBook { user_id } => seq![BindingView::Integer(user_id)],
            CommandView::DeleteUserSessions { user_id } => seq![BindingView::Integer(user_id)],
            CommandView::DeleteSession { token } => seq![BindingView::Text(token)],
            CommandView::InsertSession { token, user_id, expires_at, login_ip, created_at } => seq![
                BindingView::Text(token),
                BindingView::Integer(user_id),
                BindingView::Integer(expires_at),
                BindingView::Text(login_ip),
                BindingView::Integer(created_at),
            ],
            CommandView::SaveBook { user_id, data, updated_at } => seq![
                BindingView::Integer(user_id),
                BindingView::Text(data),
                BindingView::Integer(updated_at),
            ],
            CommandView::InsertUser { username, password_hash, created_at } => seq![
                BindingView::Text(username),
                BindingView::Text(password_hash),
                BindingView::Integer(created_at),
            ],
            CommandView::SetPasswordHash { username, password_hash } => seq![
                BindingView::Text(password_hash),
                BindingView::Text(username),
            ],
            CommandView::SetEnabled { username, enabled } => seq![
                BindingView::Integer(enabled),
                BindingView::Text(username),
            ],
        }
    }
}

impl Command {
    /// The SQL statement, with a placeholder for each bound value.
    pub fn sql(&self) -> (res: &'static str)
        ensures
            res@ == self@.statement(),
    {
        match self {
            Command::FindUser { .. } =>
                "select id, password_hash, enabled from users where username = ?",
            Command::FindUserId { .. } => "select id from users where username = ?",
            Command::FindSession { .. } =>
                "select u.id, u.username, u.enabled, s.expires_at from sessions s join users u on s.user_id = u.id where s.token = ?",
            Command::FindGrant { .. } =>
                "select s.expires_at, s.login_ip, u.enabled from sessions s join users u on s.user_id = u.id where s.token = ?",
            Command::FindBook { .. } => "select data from ab_data where user_id = ?",
            Command::DeleteUserSessions { .. } => "delete from sessions where user_id = ?",
            Command::DeleteSession { .. } => "delete from sessions where token = ?",
            Command::InsertSession { .. } =>
                "insert into sessions (token, user_id, expires_at, login_ip, created_at) values (?, ?, ?, ?, ?)",
            Command::SaveBook { .. } =>
                "insert into ab_data (user_id, data, updated_at) values (?, ?, ?)
                 on conflict(user_id) do update set data = excluded.data, updated_at = excluded.updated_at",
            Command::InsertUser { .. } =>
                "insert into users (username, password_hash, enabled, created_at) values (?, ?, 1, ?)",
            Command::SetPasswordHash { .. } =>
                "update users set password_hash = ? where username = ?",
            Command::SetEnabled { .. } => "update users set enabled = ? where username = ?",
        }
    }

    /// The values to bind to the placeholders, in their order.
    pub fn bindings(&self) -> (res: Vec<Binding>)
        ensures
            res@.map_values(|b: Binding| b@) =~= self@.bound(),
    {
        match self {
            Command::FindUser { username } => vec![Binding::Text(username.clone())],
            Command::FindUserId { username } => vec![Binding::Text(username.clone())],
            Command::FindSession { token } => vec![Binding::Text(token.clone())],
            Command::FindGrant { token } => vec![Binding::Text(token.clone())],
            Command::FindBook { user_id } => vec![Binding::Integer(*user_id)],
            Command::DeleteUserSessions { user_id } => vec![Binding::Integer(*user_id)],
            Command::DeleteSession { token } => vec![Binding::Text(token.clone())],
            Command::InsertSession { token, user_id, expires_at, login_ip, created_at } => vec![
                Binding::Text(token.clone()),
                Binding::Integer(*user_id),
                Binding::Integer(*expires_at),
                Binding::Text(login_ip.clone()),
                Binding::Integer(*created_at),
            ],
            Command::SaveBook { user_id, data, updated_at } => vec![
                Binding::Integer(*user_id),
                Binding::Text(data.clone()),
                Binding::Integer(*updated_at),
            ],
            Command::InsertUser { username, password_hash, created_at } => vec![
                Binding::Text(username.clone()),
                Binding::Text(password_hash.clone()),
                Binding::Integer(*created_at),
            ],
            Command::SetPasswordHash { username, password_hash } => vec![
                Binding::Text(password_hash.clone()),
                Binding::Text(username.clone()),
            ],
            Command::SetEnabled { username, enabled } => vec![
                Binding::Integer(*enabled),
                Binding::Text(username.clone()),
            ],
        }
    }
}

/// What came back from a statement that looks for one row.
#[derive(Debug)]
pub enum Found<R> {
    /// The statement failed.
    Failed,
    /// No row matches.
    Missing,
    /// The row.
    Row(R),
}

impl<R: View> View for Found<R> {
    type V = Found<R::V>;

    open spec fn view(&self) -> Found<R::V> {
        match *self {
            Found::Failed => Found::Failed,
            Found::Missing => Found::Missing,
            Found::Row(row) => Found::Row(row@),
        }
    }
}

/// What [`Command::FindUser`] reads.
#[derive(Debug)]
pub struct UserRow {
    pub id: i64,
    pub password_hash: String,
    pub enabled: i64,
}

/// A [`UserRow`] as a mathematical value.
pub struct UserRowView {
    pub id: i64,
    pub password_hash: Seq<char>,
    pub enabled: i64,
}

impl View for UserRow {
    type V = UserRowView;

    open spec fn view(&self) -> UserRowView {
        UserRowView { id: self.id, password_hash: self.password_hash@, enabled: self.enabled }
    }
}

/// What [`Command::FindSession`] reads.
#[derive(Debug)]
pub struct SessionRow {
    pub user_id: i64,
    pub username: String,
    pub enabled: i64,
    pub expires_at: i64,
}

/// A [`SessionRow`] as a mathematical value.
pub struct SessionRowView {
    pub user_id: i64,
    pub username: Seq<char>,
    pub enabled: i64,
    pub expires_at: i64,
}

impl View for SessionRow {
    type V = SessionRowView;

    open spec fn view(&self) -> SessionRowView {
        SessionRowView {
            user_id: self.user_id,
            username: self.username@,
            enabled: self.enabled,
            expires_at: self.expires_at,
        }
    }
}

/// What [`Command::FindGrant`] reads.
#[derive(Debug)]
pub struct GrantRow {
    pub expires_at: i64,
    pub login_ip: String,
    pub enabled: i64,
}

/// A [`GrantRow`] as a mathematical value.
pub struct GrantRowView {
    pub expires_at: i64,
    pub login_ip: Seq<char>,
    pub enabled: i64,
}

impl View for GrantRow {
    type V = GrantRowView;

    open spec fn view(&self) -> GrantRowView {
        GrantRowView {
            expires_at: self.expires_at,
            login_ip: self.login_ip@,
            enabled: self.enabled,
        }
    }
}

/// A row of the table `users`.
pub struct User {
    pub username: Seq<char>,
    pub password_hash: Seq<char>,
    pub enabled: i64,
    pub created_at: i64,
}

/// A row of the table `sessions`.
pub struct Session {
    pub user_id: i64,
    pub expires_at: i64,
    pub login_ip: Seq<char>,
    pub created_at: i64,
}

/// A row of the table `ab_data`.
pub struct Book {
    pub data: Seq<char>,
    pub updated_at: i64,
}

/// The tables, each by its primary key.
pub struct Store {
    pub users: Map<i64, User>,
    /// The number that the next user gets.
    pub next_id: i64,
    pub sessions: Map<Seq<char>, Session>,
    pub books: Map<i64, Book>,
}

impl Store {
    /// Tables without a row.
    pub open spec fn empty() -> Store {
        Store { users: Map::empty(), next_id: 1, sessions: Map::empty(), books: Map::empty() }
    }

    /// No two users share a name, and the numbers of all users have been given out.
    pub open spec fn is_valid(self) -> bool {
        &&& forall|a: i64, b: i64|
            self.users.contains_key(a) && self.users.contains_key(b) && #[trigger] self.users[a].username
                == #[trigger] self.users[b].username ==> a == b
        &&& forall|id: i64| #[trigger] self.users.contains_key(id) ==> id < self.next_id
    }

    /// `id` is the number of the user called `username`.
    pub open spec fn is_user(self, id: i64, username: Seq<char>) -> bool {
        self.users.contains_key(id) && self.users[id].username == username
    }

    /// There is a user called `username`.
    pub open spec fn has_user(self, username: Seq<char>) -> bool {
        exists|id: i64| self.is_user(id, username)
    }

    /// The number of the user called `username`.
    pub open spec fn user_id(self, username: Seq<char>) -> i64 {
        choose|id: i64| self.is_user(id, username)
    }

    /// What [`Command::FindUser`] finds.
    pub open spec fn find_user(self, username: Seq<char>) -> Found<UserRowView> {
        if self.has_user(username) {
            let id = self.user_id(username);
            Found::Row(
                UserRowView {
                    id,
                    password_hash: self.users[id].password_hash,
                    enabled: self.users[id].enabled,
                },
            )
        } else {
            Found::Missing
        }
    }

    /// The session with this token belongs to a user.
    pub open spec fn has_session(self, token: Seq<char>) -> bool {
        self.sessions.contains_key(token) && self.users.contains_key(self.sessions[token].user_id)
    }

    /// What [`Command::FindSession`] finds.
    pub open spec fn find_session(self, token: Seq<char>) -> Found<SessionRowView> {
        if self.has_session(token) {
            let session = self.sessions[token];
            let user = self.users[session.user_id];
            Found::Row(
                SessionRowView {
                    user_id: session.user_id,
                    username: user.username,
                    enabled: user.enabled,
                    expires_at: session.expires_at,
                },
            )
        } else {
            Found::Missing
        }
    }

    /// What [`Command::FindGrant`] finds.
    pub open spec fn find_grant(self, token: Seq<char>) -> Found<GrantRowView> {
        if self.has_session(token) {
            let session = self.sessions[token];
            Found::Row(
                GrantRowView {
                    expires_at: session.expires_at,
                    login_ip: session.login_ip,
                    enabled: self.users[session.user_id].enabled,
                },
            )
        } else {
            Found::Missing
        }
    }

    /// What [`Command::FindBook`] finds.
    pub open spec fn find_book(self, user_id: i64) -> Found<Seq<char>> {
        if self.books.contains_key(user_id) {
            Found::Row(self.books[user_id].data)
        } else {
            Found::Missing
        }
    }
}

/// The table `users`, by its primary key.
pub struct UserTable {
    pub rows: Map<i64, User>,
    /// The number that the next user gets.
    pub next_id: i64,
}

/// A database: each table, `None` where it has not been created.
pub struct Database {
    pub users: Option<UserTable>,
    pub sessions: Option<Map<Seq<char>, Session>>,
    pub books: Option<Map<i64, Book>>,
}

impl Database {
    /// A database without tables, which is what an empty file is.
    pub open spec fn empty() -> Database {
        Database { users: None, sessions: None, books: None }
    }

    /// The database that holds these tables.
    pub open spec fn holding(store: Store) -> Database {
        Database {
            users: Some(UserTable { rows: store.users, next_id: store.next_id }),
            sessions: Some(store.sessions),
            books: Some(store.books),
        }
    }

    /// The tables are all there.
    pub open spec fn is_complete(self) -> bool {
        self.users is Some && self.sessions is Some && self.books is Some
    }

    /// The tables of a database in which they are all there.
    pub open spec fn store(self) -> Store
        recommends
            self.is_complete(),
    {
        Store {
            users: self.users->0.rows,
            next_id: self.users->0.next_id,
            sessions: self.sessions->0,
            books: self.books->0,
        }
    }

    /// The database after the first `statements` of the three statements of [`schema`]. Each
    /// creates its table without a row, and leaves a table alone that is there already.
    pub open spec fn created(self, statements: nat) -> Database {
        Database {
            users: if self.users is None && statements >= 1 {
                Some(UserTable { rows: Map::empty(), next_id: 1 })
            } else {
                self.users
            },
            sessions: if self.sessions is None && statements >= 2 {
                Some(Map::empty())
            } else {
                self.sessions
            },
            books: if self.books is None && statements >= 3 {
                Some(Map::empty())
            } else {
                self.books
            },
        }
    }
}

/// The tables after a command; `None` where a constraint of the tables stands against it.
pub open spec fn apply(store: Store, command: CommandView) -> Option<Store> {
    match command {
        CommandView::DeleteUserSessions { user_id } => Some(
            Store {
                sessions: store.sessions.remove_keys(
                    store.sessions.dom().filter(
                        |token: Seq<char>| store.sessions[token].user_id == user_id,
                    ),
                ),
                ..store
            },
        ),
        CommandView::DeleteSession { token } => Some(
            Store { sessions: store.sessions.remove(token), ..store },
        ),
        CommandView::InsertSession { token, user_id, expires_at, login_ip, created_at } =>
            if store.sessions.contains_key(token) {
                None
            } else {
                Some(
                    Store {
                        sessions: store.sessions.insert(
                            token,
                            Session { user_id, expires_at, login_ip, created_at },
                        ),
                        ..store
                    },
                )
            },
        CommandView::SaveBook { user_id, data, updated_at } => Some(
            Store { books: store.books.insert(user_id, Book { data, updated_at }), ..store },
        ),
        CommandView::InsertUser { username, password_hash, created_at } =>
            if store.has_user(username) || store.next_id == i64::MAX {
                None
            } else {
                Some(
                    Store {
                        users: store.users.insert(
                            store.next_id,
                            User { username, password_hash, enabled: 1, created_at },
                        ),
                        next_id: (store.next_id + 1) as i64,
                        ..store
                    },
                )
            },
        CommandView::SetPasswordHash { username, password_hash } => Some(
            if store.has_user(username) {
                let id = store.user_id(username);
                Store {
                    users: store.users.insert(id, User { password_hash, ..store.users[id] }),
                    ..store
                }
            } else {
                store
            },
        ),
        CommandView::SetEnabled { username, enabled } => Some(
            if store.has_user(username) {
                let id = store.user_id(username);
                Store {
                    users: store.users.insert(id, User { enabled, ..store.users[id] }),
                    ..store
                }
            } else {
                store
            },
        ),
        _ => Some(store),
    }
}

/// The tables after a command that the connection may refuse (`failed`), and whether it was
/// carried out. A command that is not carried out changes nothing.
pub open spec fn execute(store: Store, command: CommandView, failed: bool) -> (Store, bool) {
    match apply(store, command) {
        Some(after) => if failed {
            (store, false)
        } else {
            (after, true)
        },
        None => (store, false),
    }
}

/// One thing that is run on the database, and how far it gets.
pub enum Action {
    /// The first `statements` of the statements of [`schema`].
    Create { statements: nat },
    /// A command, which the connection may refuse.
    Run { command: CommandView, failed: bool },
}

/// The tables after an action.
pub open spec fn act(store: Store, action: Action) -> Store {
    match action {
        Action::Create { statements } => Database::holding(store).created(statements).store(),
        Action::Run { command, failed } => execute(store, command, failed).0,
    }
}

/// The tables after these actions, one after the other.
pub open spec fn act_all(store: Store, actions: Seq<Action>) -> Store
    decreases actions.len(),
{
    if actions.len() == 0 {
        store
    } else {
        act_all(act(store, actions[0]), actions.skip(1))
    }
}

/// What a row lookup reports when the connection may refuse it (`failed`).
pub open spec fn answer<R>(found: Found<R>, failed: bool) -> Found<R> {
    if failed {
        Found::Failed
    } else {
        found
    }
}

} // verus!
