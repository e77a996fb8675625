//! Single decisions.

use api_server::address::{client_ip, forwarded_for, normalize_ip, IpAddress};
use api_server::address_book::{
    get_ab_found, get_ab_parsed, get_ab_user, parse_ab_data, post_ab, post_ab_stored,
    post_ab_user, post_ab_user_at, BookPost, BookStore,
};
use api_server::admin::{
    add_user_stored, set_password, user_changed, user_cleared, user_identified, AdminError,
    NewUser, UserChange, UserChanged,
};
use api_server::clock::{now, time_stamp};
use api_server::headers::bearer_token;
use api_server::login::{
    login, login_checked, login_cleared, login_session, login_stored, login_user, LoginClear, LoginLookup,
    LoginStore,
};
use api_server::password::{check_password, hash_password};
use api_server::reply::{Response, Step};
use api_server::session::{
    current_user_found, login_options, session_user, session_user_at, verify_session_at,
    verify_session_found, SessionUser,
};
use api_server::store::{Binding, Command, Found, GrantRow, SessionRow, UserRow};
use axum::http::{HeaderMap, HeaderValue};
use serde_json::Value;

fn value(text: &str) -> Value {
    serde_json::from_str(text).unwrap()
}

fn headers(name: &'static str, text: &str) -> HeaderMap {
    let mut headers = HeaderMap::new();
    headers.insert(name, HeaderValue::from_bytes(text.as_bytes()).unwrap());
    headers
}

fn is_database_failure(response: Response) {
    assert_eq!(response.status, 500);
    assert_eq!(response.body.unwrap(), value(r#"{"error": "数据库错误"}"#));
}

#[test]
fn bearer_token_is_what_follows_bearer() {
    let token = |text: &str| bearer_token(&headers("authorization", text));
    assert_eq!(token("Bearer abc"), Some("abc".to_string()));
    assert_eq!(token("Bearer  \tabc "), Some("abc".to_string()));
    assert_eq!(token("Bearer "), Some("".to_string()));
    assert_eq!(token("Bearer"), None);
    assert_eq!(token("bearer abc"), None);
    assert_eq!(token("Basic abc"), None);
    assert_eq!(token("Bearer 密"), None);
    assert_eq!(bearer_token(&HeaderMap::new()), None);
}

#[test]
fn first_of_two_authorization_headers_counts() {
    let mut headers = headers("authorization", "Bearer one");
    headers.append("Authorization", HeaderValue::from_static("Bearer two"));
    assert_eq!(bearer_token(&headers), Some("one".to_string()));
}

#[test]
fn forwarded_address_is_the_first_item() {
    let headers = headers("x-forwarded-for", " 1.2.3.4 , 5.6.7.8");
    assert_eq!(forwarded_for(&headers, true), Some("1.2.3.4".to_string()));
    assert_eq!(forwarded_for(&headers, false), None);
    assert_eq!(forwarded_for(&HeaderMap::new(), true), None);
}

#[test]
fn forwarded_address_without_a_comma_is_all_of_it() {
    let headers = headers("x-forwarded-for", "::1");
    assert_eq!(forwarded_for(&headers, true), Some("::1".to_string()));
}

#[test]
fn mapped_addresses_become_version_four() {
    let v4 = IpAddress::V4([192, 168, 1, 2]);
    assert_eq!(normalize_ip(IpAddress::V6([0, 0, 0, 0, 0, 0xffff, 0xc0a8, 0x0102])), v4);
    assert_eq!(normalize_ip(IpAddress::V6([0, 0, 0, 0, 0, 0, 0xc0a8, 0x0102])), v4);
    assert_eq!(normalize_ip(v4), v4);
    let loopback = IpAddress::V6([0, 0, 0, 0, 0, 0, 0, 1]);
    assert_eq!(normalize_ip(loopback), loopback);
    let other = IpAddress::V6([0x2001, 0xdb8, 0, 0, 0, 0xffff, 1, 2]);
    assert_eq!(normalize_ip(other), other);
    assert_eq!(normalize_ip(IpAddress::V6([0; 8])), IpAddress::V4([0; 4]));
}

#[test]
fn client_is_the_forwarded_address_or_the_peer() {
    let peer = IpAddress::V6([0, 0, 0, 0, 0, 0xffff, 0x7f00, 1]);
    let forwarded = IpAddress::V4([1, 2, 3, 4]);
    assert_eq!(client_ip(Some(forwarded), peer), forwarded);
    assert_eq!(client_ip(None, peer), IpAddress::V4([127, 0, 0, 1]));
}

#[test]
fn clock_counts_seconds() {
    assert_eq!(time_stamp(None), 0);
    assert_eq!(time_stamp(Some(1_700_000_000)), 1_700_000_000);
    assert_eq!(time_stamp(Some(i64::MAX as u64)), i64::MAX);
    assert_eq!(time_stamp(Some(u64::MAX)), -1);
    assert!(now() > 1_600_000_000);
}

#[test]
fn login_looks_the_user_up() {
    match login(&value(r#"{"username": "u", "password": "p", "id": 3}"#)) {
        Step::Run(command, lookup) => {
            assert_eq!(
                command.sql(),
                "select id, password_hash, enabled from users where username = ?"
            );
            assert_eq!(command.bindings(), vec![Binding::Text("u".to_string())]);
            assert_eq!((lookup.username.as_str(), lookup.password.as_str()), ("u", "p"));
        }
        Step::Reply(_) => panic!(),
    }
}

#[test]
fn login_wants_texts() {
    let bodies = [
        r#"{}"#,
        r#"{"username": "u"}"#,
        r#"{"username": "u", "password": 1}"#,
        r#"{"username": null, "password": "p"}"#,
        r#"["username", "password"]"#,
        r#""u""#,
    ];
    for body in bodies {
        match login(&value(body)) {
            Step::Reply(response) => {
                assert_eq!(response.status, 401);
                assert_eq!(response.body.unwrap()["error"], "用户名或密码为空");
            }
            Step::Run(..) => panic!(),
        }
    }
}

fn user_row(enabled: i64) -> Found<UserRow> {
    Found::Row(UserRow { id: 4, password_hash: "x".to_string(), enabled })
}

#[test]
fn login_goes_by_the_check_of_the_password() {
    match login_checked("u".to_string(), user_row(1), Some(true)) {
        Step::Run(Command::DeleteUserSessions { user_id }, clear) => {
            assert_eq!(user_id, 4);
            assert_eq!(clear.user_id, 4);
            assert_eq!(clear.username, "u");
        }
        _ => panic!(),
    }
    for (found, check) in [
        (user_row(0), Some(true)),
        (user_row(1), Some(false)),
        (user_row(1), None),
        (Found::Missing, Some(true)),
    ] {
        match login_checked("u".to_string(), found, check) {
            Step::Reply(response) => {
                assert_eq!(response.status, 401);
                assert_eq!(response.body.unwrap()["error"], "用户名或密码错误");
            }
            Step::Run(..) => panic!(),
        }
    }
}

#[test]
fn login_reports_a_failing_database() {
    let lookup = LoginLookup { username: "u".to_string(), password: "p".to_string() };
    match login_user(lookup, Found::Failed) {
        Step::Reply(response) => is_database_failure(response),
        Step::Run(..) => panic!(),
    }
    let store = LoginStore { username: "u".to_string(), token: "t".to_string(), expires_at: 9 };
    is_database_failure(login_stored(store, false));
}

#[test]
fn login_fails_if_earlier_sessions_may_be_left() {
    let clear = || LoginClear { username: "u".to_string(), user_id: 4 };
    match login_cleared(clear(), false, "ip".to_string()) {
        Some(Step::Reply(response)) => is_database_failure(response),
        _ => panic!(),
    }
    match login_cleared(clear(), true, "ip".to_string()) {
        Some(Step::Run(Command::InsertSession { user_id, login_ip, .. }, store)) => {
            assert_eq!(user_id, 4);
            assert_eq!(login_ip, "ip");
            assert_eq!(store.username, "u");
        }
        _ => panic!(),
    }
}

#[test]
fn session_is_stored_with_its_terms() {
    let clear = LoginClear { username: "u".to_string(), user_id: 4 };
    let (command, store) = login_session(clear, "ip".to_string(), "t".to_string(), 10, 11);
    assert_eq!(
        command.sql(),
        "insert into sessions (token, user_id, expires_at, login_ip, created_at) values (?, ?, ?, ?, ?)"
    );
    assert_eq!(
        command.bindings(),
        vec![
            Binding::Text("t".to_string()),
            Binding::Integer(4),
            Binding::Integer(259210),
            Binding::Text("ip".to_string()),
            Binding::Integer(11),
        ]
    );
    assert_eq!(store.expires_at, 259210);
}

fn session_row(enabled: i64, expires_at: i64) -> Found<SessionRow> {
    Found::Row(SessionRow { user_id: 4, username: "u".to_string(), enabled, expires_at })
}

#[test]
fn session_holds_until_it_expires() {
    assert!(matches!(session_user_at(session_row(1, 10), 10), Found::Row(user) if user.user_id == 4));
    assert!(matches!(session_user_at(session_row(1, 10), 11), Found::Missing));
    assert!(matches!(session_user_at(session_row(0, 10), 10), Found::Missing));
    assert!(matches!(session_user_at(Found::Missing, 10), Found::Missing));
    assert!(matches!(session_user_at(Found::Failed, 10), Found::Failed));
    assert!(matches!(session_user(session_row(1, i64::MAX)), Found::Row(user) if user.username == "u"));
    assert!(matches!(session_user(session_row(1, 10)), Found::Missing));
}

#[test]
fn current_user_reports_a_failing_database() {
    is_database_failure(current_user_found(Found::Failed));
    match get_ab_user(Found::Failed) {
        Step::Reply(response) => is_database_failure(response),
        Step::Run(..) => panic!(),
    }
    is_database_failure(get_ab_found(Found::Failed));
    is_database_failure(post_ab_stored(BookStore, false));
    is_database_failure(verify_session_at(Found::Failed, "", 0));
}

#[test]
fn verification_looks_at_the_user_then_the_time_then_the_address() {
    let row = |enabled: i64| {
        Found::Row(GrantRow { expires_at: 10, login_ip: "a".to_string(), enabled })
    };
    let reason = |response: Response| response.body.unwrap()["reason"].clone();
    assert_eq!(reason(verify_session_at(row(0), "b", 11)), "not_found");
    assert_eq!(reason(verify_session_at(row(1), "b", 11)), "expired");
    assert_eq!(reason(verify_session_at(row(1), "b", 10)), "ip_mismatch");
    assert_eq!(reason(verify_session_at(row(1), "a", 10)), Value::Null);
    assert_eq!(reason(verify_session_found(row(1), "a")), "expired");
}

#[test]
fn there_are_no_other_ways_to_log_in() {
    let response = login_options();
    assert_eq!(response.status, 200);
    assert_eq!(response.body.unwrap(), value("[]"));
}

#[test]
fn address_book_is_an_array_or_a_text() {
    let data = |text: &str| parse_ab_data(&value(text));
    assert_eq!(data(r#"{"data": [ {"b": 1, "a": "x"} ]}"#), Some(r#"[{"a":"x","b":1}]"#.to_string()));
    assert_eq!(data(r#"{"data": "[]"}"#), Some(r#""[]""#.to_string()));
    assert_eq!(data(r#"{"data": []}"#), Some("[]".to_string()));
    assert_eq!(data(r#"{"data": {}}"#), None);
    assert_eq!(data(r#"{"data": 1}"#), None);
    assert_eq!(data(r#"{"data": null}"#), None);
    assert_eq!(data(r#"{}"#), None);
    assert_eq!(data(r#"[]"#), None);
}

#[test]
fn invalid_address_book_is_a_bad_request() {
    match post_ab(&headers("authorization", "Bearer t"), &value(r#"{"data": 1}"#)) {
        Step::Reply(response) => {
            assert_eq!(response.status, 400);
            assert_eq!(response.body.unwrap(), value(r#"{"error": "无效的地址簿数据"}"#));
        }
        Step::Run(..) => panic!(),
    }
    // The token is asked for first.
    match post_ab(&HeaderMap::new(), &value(r#"{"data": 1}"#)) {
        Step::Reply(response) => assert_eq!(response.status, 401),
        Step::Run(..) => panic!(),
    }
}

#[test]
fn address_book_is_stored_for_the_user_of_the_session() {
    let user = || Found::Row(SessionUser { username: "u".to_string(), user_id: 4 });
    let post = || BookPost { data: "[]".to_string() };
    match post_ab_user_at(post(), user(), 8) {
        Step::Run(command, _) => assert_eq!(
            command.bindings(),
            vec![Binding::Integer(4), Binding::Text("[]".to_string()), Binding::Integer(8)]
        ),
        Step::Reply(_) => panic!(),
    }
    match post_ab_user(post(), user()) {
        Step::Run(Command::SaveBook { user_id, updated_at, .. }, _) => {
            assert_eq!(user_id, 4);
            assert!(updated_at > 1_600_000_000);
        }
        _ => panic!(),
    }
    match post_ab_user(post(), Found::Failed) {
        Step::Reply(response) => is_database_failure(response),
        Step::Run(..) => panic!(),
    }
}

#[test]
fn address_book_that_was_read_is_passed_on_if_it_is_an_array() {
    let body = |document: Option<Value>| get_ab_parsed(document).body.unwrap();
    assert_eq!(body(Some(value("[1]"))), value(r#"{"data": [1]}"#));
    assert_eq!(body(Some(value(r#""x""#))), value(r#"{"data": []}"#));
    assert_eq!(body(Some(value(r#"{"data": [1]}"#))), value(r#"{"data": []}"#));
    assert_eq!(body(Some(Value::Null)), value(r#"{"data": []}"#));
    assert_eq!(body(None), value(r#"{"data": []}"#));
}

#[test]
fn address_book_keeps_the_deepest_nesting_that_is_read() {
    let nested = |depth: usize| format!("{}{}", "[".repeat(depth), "]".repeat(depth));
    let found = |depth: usize| get_ab_found(Found::Row(nested(depth))).body.unwrap();
    assert_eq!(found(127)["data"], value(&nested(127)));
    assert_eq!(found(128), value(r#"{"data": []}"#));
}

#[test]
fn passwords_match_their_hashes() {
    let hash = "$2a$06$m0CrhHm10qJ3lXRY.5zDGO3rS2KdeeWLuGmsfGlMfOxih58VYVfxe";
    assert_eq!(check_password("a", hash), Some(true));
    assert_eq!(check_password("b", hash), Some(false));
    assert_eq!(check_password("a", "a"), None);
    assert_eq!(check_password("a", ""), None);
    let hash = hash_password("密码").unwrap();
    assert_eq!(check_password("密码", &hash), Some(true));
    assert_eq!(check_password("密", &hash), Some(false));
}

#[test]
fn added_user_is_taken_or_the_database_fails() {
    let user = || NewUser { username: "u".to_string() };
    assert!(add_user_stored(user(), Ok(())).is_ok());
    let reason = "error returned from database: UNIQUE constraint failed: users.username";
    let error = add_user_stored(user(), Err(reason.to_string())).unwrap_err();
    assert_eq!(error.message(), "用户已存在: u");
    let error = add_user_stored(user(), Err("disk full".to_string())).unwrap_err();
    assert!(matches!(&error, AdminError::Database(reason) if reason == "disk full"));
    assert_eq!(error.message(), "disk full");
    let error = AdminError::Hashing(bcrypt::BcryptError::CostNotAllowed(2));
    assert_eq!(error.message(), "Cost needs to be between 4 and 31, got 2");
}

#[test]
fn changed_user_is_identified_then_logged_out() {
    let change = || UserChange { username: "u".to_string() };
    let (command, changed) = user_changed(change(), Ok(1)).unwrap();
    assert_eq!(command.sql(), "select id from users where username = ?");
    assert_eq!(command.bindings(), vec![Binding::Text("u".to_string())]);
    let command = user_identified(changed, Ok(4)).unwrap();
    assert_eq!(command.sql(), "delete from sessions where user_id = ?");
    assert_eq!(command.bindings(), vec![Binding::Integer(4)]);
    let error = user_changed(change(), Err("locked".to_string())).unwrap_err();
    assert_eq!(error.message(), "locked");
    let error = user_changed(change(), Ok(0)).unwrap_err();
    assert_eq!(error.message(), "用户不存在: u");
    let error = user_identified(UserChanged, Err("locked".to_string())).unwrap_err();
    assert!(matches!(error, AdminError::Database(reason) if reason == "locked"));
    assert!(user_cleared(Ok(())).is_ok());
    let error = user_cleared(Err("locked".to_string())).unwrap_err();
    assert!(matches!(error, AdminError::Database(reason) if reason == "locked"));
}

#[test]
fn new_password_is_hashed() {
    let (command, change) = set_password("u", "p").unwrap();
    assert_eq!(change.username, "u");
    match command {
        Command::SetPasswordHash { username, password_hash } => {
            assert_eq!(username, "u");
            assert_eq!(check_password("p", &password_hash), Some(true));
        }
        _ => panic!(),
    }
}
