//! Whole requests on a real database.

use api_server::address_book::{
    get_ab, get_ab_found, get_ab_user, post_ab, post_ab_stored, post_ab_user_at,
};
use api_server::admin::{
    add_user, add_user_hashed, add_user_stored, set_password_hashed, set_user_enabled,
    user_changed, user_cleared, user_identified, AdminError, UserChange,
};
use api_server::login::{
    login, login_cleared, login_session, login_stored, login_user, TOKEN_EXPIRE_SECS,
};
use api_server::reply::{Response, Step};
use api_server::session::{
    current_user, current_user_found, logout, logout_done, session_user_at, verify_session,
    verify_session_at, SessionUser,
};
use api_server::store::{
    schema, Binding, Command, Found, GrantRow, SessionRow, UserRow,
};
use axum::http::{HeaderMap, HeaderValue};
use serde_json::Value;
use sqlx::sqlite::{SqliteArguments, SqliteRow};
use sqlx::{Connection, Row, Sqlite, SqliteConnection};
use tokio::runtime::{Builder, Runtime};

/// The hash of the password `a`.
const HASH_OF_A: &str = "$2a$06$m0CrhHm10qJ3lXRY.5zDGO3rS2KdeeWLuGmsfGlMfOxih58VYVfxe";
/// The hash of the empty password.
const HASH_OF_NOTHING: &str = "$2a$06$DCq7YPn5Rq63x1Lad4cll.TV4S6ytwfsfvkgY8jIucDrjc8deX1s.";

struct Db {
    runtime: Runtime,
    connection: SqliteConnection,
}

fn prepare(command: &Command) -> sqlx::query::Query<'_, Sqlite, SqliteArguments<'_>> {
    let mut query = sqlx::query(command.sql());
    for binding in command.bindings() {
        query = match binding {
            Binding::Text(text) => query.bind(text),
            Binding::Integer(n) => query.bind(n),
        };
    }
    query
}

impl Db {
    fn open() -> Db {
        let runtime = Builder::new_current_thread().enable_all().build().unwrap();
        let connection = runtime.block_on(async {
            let mut connection = SqliteConnection::connect("sqlite::memory:").await.unwrap();
            sqlx::query(schema()).execute(&mut connection).await.unwrap();
            connection
        });
        Db { runtime, connection }
    }

    fn run(&mut self, statements: &str) {
        self.runtime
            .block_on(sqlx::query(statements).execute(&mut self.connection))
            .unwrap();
    }

    fn count(&mut self, table: &str) -> i64 {
        let query = format!("select count(*) as n from {table}");
        self.runtime
            .block_on(sqlx::query(&query).fetch_one(&mut self.connection))
            .unwrap()
            .get("n")
    }

    fn execute(&mut self, command: &Command) -> Result<u64, String> {
        self.runtime
            .block_on(prepare(command).execute(&mut self.connection))
            .map(|done| done.rows_affected())
            .map_err(|e| e.to_string())
    }

    fn fetch(&mut self, command: &Command) -> Option<SqliteRow> {
        self.runtime
            .block_on(prepare(command).fetch_optional(&mut self.connection))
            .unwrap()
    }

    fn session(&mut self, command: &Command) -> Found<SessionRow> {
        match self.fetch(command) {
            Some(row) => Found::Row(SessionRow {
                user_id: row.get("id"),
                username: row.get("username"),
                enabled: row.get("enabled"),
                expires_at: row.get("expires_at"),
            }),
            None => Found::Missing,
        }
    }

    fn user_at(&mut self, command: &Command, now: i64) -> Found<SessionUser> {
        session_user_at(self.session(command), now)
    }

    fn add(&mut self, username: &str, hash: &str) -> Result<(), AdminError> {
        let (command, user) = add_user_hashed(username, hash.to_string(), 50);
        let stored = self.execute(&command).map(|_| ());
        add_user_stored(user, stored)
    }

    fn change(&mut self, command: Command, change: UserChange) -> Result<(), AdminError> {
        let stored = self.execute(&command);
        let (command, changed) = user_changed(change, stored)?;
        let id = self.fetch(&command).map(|row| row.get::<i64, _>("id"));
        let command = user_identified(changed, id.ok_or("no row".to_string()))?;
        user_cleared(self.execute(&command).map(|_| ()))
    }

    /// Logs in at the time `issued_at`, with this token.
    fn login(&mut self, username: &str, password: &str, token: &str, issued_at: i64) -> Response {
        let (command, lookup) = match login(&credentials(username, password)) {
            Step::Reply(response) => return response,
            Step::Run(command, lookup) => (command, lookup),
        };
        let found = match self.fetch(&command) {
            Some(row) => Found::Row(UserRow {
                id: row.get("id"),
                password_hash: row.get("password_hash"),
                enabled: row.get("enabled"),
            }),
            None => Found::Missing,
        };
        let (command, clear) = match login_user(lookup, found) {
            Step::Reply(response) => return response,
            Step::Run(command, clear) => (command, clear),
        };
        self.execute(&command).unwrap();
        let (command, store) =
            login_session(clear, "10.0.0.1".to_string(), token.to_string(), issued_at, 7);
        let stored = self.execute(&command).is_ok();
        login_stored(store, stored)
    }

    fn current_user(&mut self, headers: &HeaderMap, now: i64) -> Response {
        match current_user(headers) {
            Step::Reply(response) => response,
            Step::Run(command, _) => current_user_found(self.user_at(&command, now)),
        }
    }

    fn logout(&mut self, headers: &HeaderMap) -> Response {
        match logout(headers) {
            Step::Reply(response) => response,
            Step::Run(command, end) => {
                self.execute(&command).unwrap();
                logout_done(end)
            }
        }
    }

    fn verify(&mut self, token: &str, ip: &str, now: i64) -> Value {
        let command = verify_session(token.to_string());
        let found = match self.fetch(&command) {
            Some(row) => Found::Row(GrantRow {
                expires_at: row.get("expires_at"),
                login_ip: row.get("login_ip"),
                enabled: row.get("enabled"),
            }),
            None => Found::Missing,
        };
        let response = verify_session_at(found, ip, now);
        assert_eq!(response.status, 200);
        response.body.unwrap()
    }

    fn post(&mut self, headers: &HeaderMap, body: &str, now: i64) -> Response {
        let (command, post) = match post_ab(headers, &value(body)) {
            Step::Reply(response) => return response,
            Step::Run(command, post) => (command, post),
        };
        let user = self.user_at(&command, now);
        match post_ab_user_at(post, user, now) {
            Step::Reply(response) => response,
            Step::Run(command, store) => {
                let stored = self.execute(&command).is_ok();
                post_ab_stored(store, stored)
            }
        }
    }

    fn get(&mut self, headers: &HeaderMap, now: i64) -> Response {
        let command = match get_ab(headers) {
            Step::Reply(response) => return response,
            Step::Run(command, _) => command,
        };
        let user = self.user_at(&command, now);
        match get_ab_user(user) {
            Step::Reply(response) => response,
            Step::Run(command, _) => get_ab_found(match self.fetch(&command) {
                Some(row) => Found::Row(row.get("data")),
                None => Found::Missing,
            }),
        }
    }
}

fn value(text: &str) -> Value {
    serde_json::from_str(text).unwrap()
}

fn credentials(username: &str, password: &str) -> Value {
    let mut body = value("{}");
    body["username"] = Value::from(username);
    body["password"] = Value::from(password);
    body
}

fn bearer(token: &str) -> HeaderMap {
    let mut headers = HeaderMap::new();
    let value = HeaderValue::from_str(&format!("Bearer {token}")).unwrap();
    headers.insert("authorization", value);
    headers
}

fn refused(response: Response, message: &str) {
    assert_eq!(response.status, 401);
    assert_eq!(response.body.unwrap()["error"], message);
}

fn db_with_users() -> Db {
    let mut db = Db::open();
    db.add("alice", HASH_OF_A).unwrap();
    db.add("bob", HASH_OF_A).unwrap();
    db
}

#[test]
fn login_opens_a_session_for_three_days() {
    let mut db = db_with_users();
    let response = db.login("alice", "a", "t1", 1000);
    assert_eq!(response.status, 200);
    assert_eq!(
        response.body.unwrap(),
        value(
            r#"{"access_token": "t1", "type": "access_token", "expires_at": 260200, "user":
               {"name": "alice", "display_name": "alice", "avatar": "", "status": 1, "is_admin": false}}"#
        )
    );
    let last = 1000 + TOKEN_EXPIRE_SECS;
    assert_eq!(last, 260200);
    let response = db.current_user(&bearer("t1"), last);
    assert_eq!(response.status, 200);
    assert_eq!(response.body.unwrap()["name"], "alice");
    refused(db.current_user(&bearer("t1"), last + 1), "凭证无效");
}

#[test]
fn login_leaves_one_session_and_spares_other_users() {
    let mut db = db_with_users();
    db.login("alice", "a", "t1", 1000);
    db.login("bob", "a", "t2", 1000);
    db.login("alice", "a", "t3", 1000);
    refused(db.current_user(&bearer("t1"), 1000), "凭证无效");
    assert_eq!(db.current_user(&bearer("t2"), 1000).status, 200);
    assert_eq!(db.current_user(&bearer("t3"), 1000).status, 200);
}

#[test]
fn login_with_a_token_that_is_in_use_fails() {
    let mut db = db_with_users();
    db.login("bob", "a", "t1", 1000);
    let response = db.login("alice", "a", "t1", 1000);
    assert_eq!(response.status, 500);
    assert_eq!(response.body.unwrap()["error"], "数据库错误");
}

#[test]
fn bad_credentials_are_refused_alike() {
    let mut db = db_with_users();
    refused(db.login("alice", "b", "t1", 1000), "用户名或密码错误");
    refused(db.login("carol", "a", "t1", 1000), "用户名或密码错误");
    let (command, change) = set_user_enabled("alice", false);
    db.change(command, change).unwrap();
    refused(db.login("alice", "a", "t1", 1000), "用户名或密码错误");
    refused(db.login("", "a", "t1", 1000), "用户名或密码为空");
    refused(db.login("alice", "", "t1", 1000), "用户名或密码为空");
}

#[test]
fn a_stored_text_that_is_no_hash_lets_nobody_in() {
    let mut db = Db::open();
    db.add("alice", "not a hash").unwrap();
    refused(db.login("alice", "not a hash", "t1", 1000), "用户名或密码错误");
}

#[test]
fn session_is_bound_to_the_address_of_the_login() {
    let mut db = db_with_users();
    db.login("alice", "a", "t1", 1000);
    let last = 1000 + TOKEN_EXPIRE_SECS;
    assert_eq!(db.verify("t1", "10.0.0.1", last), value(r#"{"valid": true}"#));
    assert_eq!(
        db.verify("t1", "10.0.0.2", last),
        value(r#"{"valid": false, "reason": "ip_mismatch"}"#)
    );
    assert_eq!(
        db.verify("t1", "10.0.0.2", last + 1),
        value(r#"{"valid": false, "reason": "expired"}"#)
    );
    assert_eq!(
        db.verify("t2", "10.0.0.1", last),
        value(r#"{"valid": false, "reason": "not_found"}"#)
    );
    // The questions have left the session as it was.
    assert_eq!(db.current_user(&bearer("t1"), last).status, 200);
}

#[test]
fn a_disabled_user_has_no_valid_session() {
    let mut db = db_with_users();
    db.login("alice", "a", "t1", 1000);
    // Disabled behind the service's back: the session is still there.
    let (command, _) = set_user_enabled("alice", false);
    db.execute(&command).unwrap();
    assert_eq!(
        db.verify("t1", "10.0.0.1", 1000),
        value(r#"{"valid": false, "reason": "not_found"}"#)
    );
    refused(db.current_user(&bearer("t1"), 1000), "凭证无效");
    refused(db.get(&bearer("t1"), 1000), "凭证无效");
    refused(db.post(&bearer("t1"), r#"{"data": []}"#, 1000), "凭证无效");
}

#[test]
fn a_token_is_needed() {
    let mut db = db_with_users();
    let headers = HeaderMap::new();
    refused(db.current_user(&headers, 0), "缺少凭证");
    refused(db.logout(&headers), "缺少凭证");
    refused(db.get(&headers, 0), "缺少凭证");
    refused(db.post(&headers, r#"{"data": []}"#, 0), "缺少凭证");
}

#[test]
fn logout_ends_the_session_and_no_other() {
    let mut db = db_with_users();
    db.login("alice", "a", "t1", 1000);
    db.login("bob", "a", "t2", 1000);
    let response = db.logout(&bearer("t1"));
    assert_eq!(response.status, 200);
    assert!(response.body.is_none());
    refused(db.current_user(&bearer("t1"), 1000), "凭证无效");
    assert_eq!(db.current_user(&bearer("t2"), 1000).status, 200);
    // A second logout says the same.
    assert_eq!(db.logout(&bearer("t1")).status, 200);
}

#[test]
fn new_password_ends_sessions() {
    let mut db = db_with_users();
    db.login("alice", "a", "t1", 1000);
    db.login("bob", "a", "t2", 1000);
    let (command, change) = set_password_hashed("alice", HASH_OF_NOTHING.to_string());
    db.change(command, change).unwrap();
    refused(db.current_user(&bearer("t1"), 1000), "凭证无效");
    assert_eq!(db.current_user(&bearer("t2"), 1000).status, 200);
    refused(db.login("alice", "a", "t3", 1000), "用户名或密码错误");
    let (command, change) = set_password_hashed("alice", HASH_OF_A.to_string());
    db.change(command, change).unwrap();
    assert_eq!(db.login("alice", "a", "t3", 1000).status, 200);
}

#[test]
fn enabling_and_disabling_ends_sessions() {
    let mut db = db_with_users();
    db.login("alice", "a", "t1", 1000);
    let (command, change) = set_user_enabled("alice", true);
    db.change(command, change).unwrap();
    refused(db.current_user(&bearer("t1"), 1000), "凭证无效");
    db.login("alice", "a", "t2", 1000);
    let (command, change) = set_user_enabled("alice", false);
    db.change(command, change).unwrap();
    refused(db.current_user(&bearer("t2"), 1000), "凭证无效");
    let (command, change) = set_user_enabled("alice", true);
    db.change(command, change).unwrap();
    refused(db.current_user(&bearer("t2"), 1000), "凭证无效");
    assert_eq!(db.login("alice", "a", "t3", 1000).status, 200);
}

#[test]
fn an_unknown_user_is_not_changed() {
    let mut db = db_with_users();
    let (command, change) = set_user_enabled("carol", true);
    let error = db.change(command, change).unwrap_err();
    assert_eq!(error.message(), "用户不存在: carol");
    let (command, change) = set_password_hashed("carol", HASH_OF_A.to_string());
    let error = db.change(command, change).unwrap_err();
    assert!(matches!(error, AdminError::UserMissing(name) if name == "carol"));
}

#[test]
fn a_user_name_is_given_once() {
    let mut db = db_with_users();
    let error = db.add("alice", HASH_OF_NOTHING).unwrap_err();
    assert_eq!(error.message(), "用户已存在: alice");
    assert_eq!(db.login("alice", "a", "t1", 1000).status, 200);
}

#[test]
fn an_added_user_can_log_in_under_a_fresh_token() {
    let mut db = Db::open();
    let (command, user) = add_user("dave", "secret 密码").unwrap();
    let stored = db.execute(&command).map(|_| ());
    add_user_stored(user, stored).unwrap();
    let (_, lookup) = match login(&credentials("dave", "secret 密码")) {
        Step::Run(command, lookup) => (command, lookup),
        Step::Reply(_) => unreachable!(),
    };
    let hash = match command {
        Command::InsertUser { password_hash, created_at, .. } => {
            assert!(created_at > 1_600_000_000);
            password_hash
        }
        _ => unreachable!(),
    };
    assert_eq!(hash.len(), 60);
    assert!(hash.starts_with("$2b$12$"));
    let row = UserRow { id: 1, password_hash: hash, enabled: 1 };
    let clear = match login_user(lookup, Found::Row(row)) {
        Step::Run(Command::DeleteUserSessions { user_id: 1 }, clear) => clear,
        _ => unreachable!(),
    };
    let (command, store) = match login_cleared(clear, true, "::1".to_string()).unwrap() {
        Step::Run(command, store) => (command, store),
        Step::Reply(_) => unreachable!(),
    };
    match command {
        Command::InsertSession { token, user_id, expires_at, login_ip, created_at } => {
            assert_eq!(token, store.token);
            assert_eq!(token.len(), 32);
            assert!(token.chars().all(|c| matches!(c, '0'..='9' | 'a'..='f')));
            assert_eq!(&token[12..13], "4");
            assert!(matches!(&token[16..17], "8" | "9" | "a" | "b"));
            assert_eq!(user_id, 1);
            assert_eq!(login_ip, "::1");
            assert!(created_at > 1_600_000_000);
            assert!((expires_at - created_at - TOKEN_EXPIRE_SECS).abs() < 10);
        }
        _ => unreachable!(),
    }
}

#[test]
fn an_address_book_reads_back() {
    let mut db = db_with_users();
    db.login("alice", "a", "t1", 1000);
    db.login("bob", "a", "t2", 1000);
    let empty = value(r#"{"data": []}"#);
    assert_eq!(db.get(&bearer("t1"), 1000).body.unwrap(), empty);
    let body = r#"{"data": [{"id": "123 456", "n": -7, "tags": ["工作", "\"\\"]}, null, true]}"#;
    let response = db.post(&bearer("t1"), body, 1000);
    assert_eq!(response.status, 200);
    assert!(response.body.is_none());
    let response = db.get(&bearer("t1"), 2000);
    assert_eq!(response.status, 200);
    assert_eq!(response.body.unwrap(), value(body));
    assert_eq!(db.get(&bearer("t2"), 1000).body.unwrap(), empty);
    // A later book takes the place of the first; a text is no book.
    assert_eq!(db.post(&bearer("t1"), r#"{"data": "[1]"}"#, 1000).status, 200);
    assert_eq!(db.get(&bearer("t1"), 1000).body.unwrap(), empty);
    assert_eq!(db.post(&bearer("t1"), r#"{"data": [2]}"#, 1000).status, 200);
    assert_eq!(db.get(&bearer("t1"), 1000).body.unwrap(), value(r#"{"data": [2]}"#));
    refused(db.get(&bearer("t1"), 1000 + TOKEN_EXPIRE_SECS + 1), "凭证无效");
}

#[test]
fn an_unreadable_address_book_is_empty() {
    let mut db = db_with_users();
    db.login("alice", "a", "t1", 1000);
    let command = Command::SaveBook { user_id: 1, data: "[1,".to_string(), updated_at: 3 };
    db.execute(&command).unwrap();
    assert_eq!(db.get(&bearer("t1"), 1000).body.unwrap(), value(r#"{"data": []}"#));
}

#[test]
fn an_address_book_is_an_array_whatever_is_stored() {
    let mut db = db_with_users();
    db.login("alice", "a", "t1", 1000);
    for data in [r#""x""#, "{}", "7", "null", "true", "", "x", r#"{"data":[1]}"#] {
        let command =
            Command::SaveBook { user_id: 1, data: data.to_string(), updated_at: 3 };
        db.execute(&command).unwrap();
        let response = db.get(&bearer("t1"), 1000);
        assert_eq!(response.status, 200);
        assert_eq!(response.body.unwrap(), value(r#"{"data": []}"#));
    }
}

#[test]
fn an_address_book_reads_back_under_a_later_session() {
    let mut db = db_with_users();
    db.login("alice", "a", "t1", 1000);
    db.login("bob", "a", "t2", 1000);
    let body = r#"{"data": [{"id": "7"}]}"#;
    assert_eq!(db.post(&bearer("t1"), body, 1000).status, 200);
    db.post(&bearer("t2"), r#"{"data": [2]}"#, 1000);
    db.login("alice", "a", "t3", 5000);
    refused(db.get(&bearer("t1"), 5000), "凭证无效");
    assert_eq!(db.get(&bearer("t3"), 5000).body.unwrap(), value(body));
}

#[test]
fn an_address_book_with_the_key_of_the_parser_reads_back_unless_it_comes_first() {
    let mut db = db_with_users();
    db.login("alice", "a", "t1", 1000);
    for key in ["", "#", "$a", "$serde_json", "$serde_json::private::Number"] {
        let body =
            format!(r#"{{"data": [{{"{key}": 1, "$serde_json::private::RawValue": "[1]"}}]}}"#);
        assert_eq!(db.post(&bearer("t1"), &body, 1000).status, 200);
        assert_eq!(db.get(&bearer("t1"), 1000).body.unwrap(), value(&body));
    }
}

#[test]
fn an_address_book_with_the_key_of_the_parser_does_not_read_back() {
    let mut db = db_with_users();
    db.login("alice", "a", "t1", 1000);
    let body = r#"{"data": [{"a": 1, "$serde_json::private::RawValue": "[1]"}]}"#;
    assert_eq!(db.post(&bearer("t1"), body, 1000).status, 200);
    assert_eq!(db.get(&bearer("t1"), 1000).body.unwrap(), value(r#"{"data": []}"#));
}

#[test]
fn a_change_fails_if_the_sessions_cannot_be_ended() {
    let mut db = db_with_users();
    db.login("alice", "a", "t1", 1000);
    db.run("create trigger keep before delete on sessions begin select raise(abort, 'kept'); end");
    let (command, change) = set_password_hashed("alice", HASH_OF_NOTHING.to_string());
    let error = db.change(command, change).unwrap_err();
    assert!(matches!(&error, AdminError::Database(reason) if reason.contains("kept")));
    let (command, change) = set_user_enabled("alice", false);
    assert!(matches!(db.change(command, change), Err(AdminError::Database(_))));
}

#[test]
fn opening_a_database_again_keeps_its_rows() {
    let mut db = Db::open();
    for table in ["users", "sessions", "ab_data"] {
        assert_eq!(db.count(table), 0);
    }
    db.add("alice", HASH_OF_A).unwrap();
    db.login("alice", "a", "t1", 1000);
    db.post(&bearer("t1"), r#"{"data": [1]}"#, 1000);
    db.run(schema());
    for table in ["users", "sessions", "ab_data"] {
        assert_eq!(db.count(table), 1);
    }
    assert_eq!(db.current_user(&bearer("t1"), 1000).status, 200);
    assert_eq!(db.get(&bearer("t1"), 1000).body.unwrap(), value(r#"{"data": [1]}"#));
    // The tables that are missing are created beside those that are there.
    db.run("drop table sessions");
    db.run(schema());
    assert_eq!(db.count("users"), 1);
    assert_eq!(db.count("sessions"), 0);
    assert_eq!(db.count("ab_data"), 1);
    assert!(db.add("alice", HASH_OF_A).is_err());
}
