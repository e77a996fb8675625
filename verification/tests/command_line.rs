//! The command line and the start of the service.

use api_server::admin::AdminError;
use api_server::options::{
    admin_cmd, parse_invocation, parse_options, password_prompts, read_pwd, AdminCmd, AdminTask,
    Invocation, UsageError,
};
use api_server::server::{listen_address, open_db, Endpoint, Method, OpenStep};
use api_server::store::schema;

fn args(texts: &[&str]) -> Vec<String> {
    texts.iter().map(|text| text.to_string()).collect()
}

#[test]
fn options_have_defaults() {
    let options = parse_options(&[], 0).unwrap();
    assert_eq!(options.port, 21115);
    assert_eq!(options.db_path, "api.sqlite3");
    assert!(!options.trusted_proxy);
    assert_eq!(parse_options(&args(&["x"]), 3).unwrap().port, 21115);
}

#[test]
fn options_are_read_in_turn() {
    let list = args(&["prog", "-p", "80", "--db", "x.db", "-t", "--port", "81"]);
    let options = parse_options(&list, 1).unwrap();
    assert_eq!(options.port, 81);
    assert_eq!(options.db_path, "x.db");
    assert!(options.trusted_proxy);
    let options = parse_options(&args(&["-d", "-t", "--trusted-proxy"]), 0).unwrap();
    assert_eq!(options.db_path, "-t");
    assert!(options.trusted_proxy);
}

#[test]
fn a_port_that_is_no_number_or_zero_is_the_default() {
    let port = |text: &str| parse_options(&args(&["-p", text]), 0).unwrap().port;
    for text in ["0", "", "x", " 80", "80 ", "1_000", "+", "-", "2147483648", "-2147483649", "--5"] {
        assert_eq!(port(text), 21115);
    }
    assert_eq!(port("+80"), 80);
    assert_eq!(port("-1"), -1);
    assert_eq!(port("0080"), 80);
    assert_eq!(port("2147483647"), i32::MAX);
    assert_eq!(port("-2147483648"), i32::MIN);
}

#[test]
fn wrong_options_are_reported() {
    let error = parse_options(&args(&["-t", "-p"]), 0).unwrap_err();
    assert!(matches!(error, UsageError::MissingPort));
    assert_eq!(error.message(), "缺少端口参数");
    let error = parse_options(&args(&["--db"]), 0).unwrap_err();
    assert!(matches!(error, UsageError::MissingDbPath));
    assert_eq!(error.message(), "缺少数据库路径参数");
    let error = parse_options(&args(&["-t", "-x", "-p"]), 0).unwrap_err();
    assert_eq!(error.message(), "未知参数: -x");
}

#[test]
fn invocation_serves_unless_a_command_is_named() {
    match parse_invocation(&args(&["prog", "-p", "1"])).unwrap() {
        Invocation::Serve { options } => assert_eq!(options.port, 1),
        Invocation::Admin { .. } => panic!(),
    }
    assert!(matches!(parse_invocation(&[]).unwrap(), Invocation::Serve { .. }));
    let named = [
        ("--add-user", AdminCmd::AddUser),
        ("--set-password", AdminCmd::SetPassword),
        ("--disable-user", AdminCmd::DisableUser),
        ("--enable-user", AdminCmd::EnableUser),
    ];
    for (name, expected) in named {
        match parse_invocation(&args(&["prog", name, "alice", "-d", "x.db"])).unwrap() {
            Invocation::Admin { cmd, username, options } => {
                assert_eq!(cmd, expected);
                assert_eq!(username, "alice");
                assert_eq!(options.db_path, "x.db");
            }
            Invocation::Serve { .. } => panic!(),
        }
        let error = parse_invocation(&args(&["prog", name])).unwrap_err();
        assert_eq!(error.message(), "缺少用户名");
    }
    let error = parse_invocation(&args(&["prog", "-t", "--add-user"])).unwrap_err();
    assert!(matches!(error, UsageError::UnknownArgument(name) if name == "--add-user"));
}

#[test]
fn password_of_a_new_user_is_typed_twice() {
    assert_eq!(password_prompts(AdminCmd::AddUser), 2);
    assert_eq!(password_prompts(AdminCmd::SetPassword), 1);
    assert_eq!(password_prompts(AdminCmd::DisableUser), 0);
    assert_eq!(password_prompts(AdminCmd::EnableUser), 0);
    match admin_cmd(AdminCmd::AddUser, "u", &args(&["p", "p"])).unwrap() {
        AdminTask::AddUser { username, password } => assert_eq!((username.as_str(), password.as_str()), ("u", "p")),
        _ => panic!(),
    }
    let error = admin_cmd(AdminCmd::AddUser, "u", &args(&["p", "q"])).unwrap_err();
    assert!(matches!(error, AdminError::PasswordMismatch));
    assert_eq!(error.message(), "两次输入的密码不一致");
    match admin_cmd(AdminCmd::SetPassword, "u", &args(&["p"])).unwrap() {
        AdminTask::SetPassword { username, password } => assert_eq!((username.as_str(), password.as_str()), ("u", "p")),
        _ => panic!(),
    }
    for (cmd, expected) in [(AdminCmd::DisableUser, false), (AdminCmd::EnableUser, true)] {
        match admin_cmd(cmd, "u", &[]).unwrap() {
            AdminTask::SetEnabled { username, enabled } => {
                assert_eq!(username, "u");
                assert_eq!(enabled, expected);
            }
            _ => panic!(),
        }
    }
}

#[test]
fn password_is_the_line_without_white_space() {
    assert_eq!(read_pwd("secret\r\n"), "secret");
    assert_eq!(read_pwd("\u{3000} a b\u{85}\n"), "a b");
    assert_eq!(read_pwd("\u{200b}x"), "\u{200b}x");
    assert_eq!(read_pwd(" \t\n"), "");
}

#[test]
fn service_listens_on_all_interfaces() {
    assert_eq!(listen_address(21115), "0.0.0.0:21115");
    assert_eq!(listen_address(0), "0.0.0.0:0");
    assert_eq!(listen_address(-12), "0.0.0.0:-12");
    assert_eq!(listen_address(i32::MIN), "0.0.0.0:-2147483648");
}

#[test]
fn endpoints_have_paths() {
    assert_eq!(Endpoint::Login.path(), "/api/login");
    assert_eq!(Endpoint::CurrentUser.path(), "/api/currentUser");
    assert_eq!(Endpoint::Logout.path(), "/api/logout");
    assert_eq!(Endpoint::LoginOptions.path(), "/api/login-options");
    assert_eq!(Endpoint::AddressBook.path(), "/api/ab");
    assert_eq!(Endpoint::VerifySession.path(), "/api/verify-session");
}

#[test]
fn endpoints_have_methods() {
    assert_eq!(Endpoint::Login.methods(), vec![Method::Post]);
    assert_eq!(Endpoint::CurrentUser.methods(), vec![Method::Post]);
    assert_eq!(Endpoint::Logout.methods(), vec![Method::Post]);
    assert_eq!(Endpoint::LoginOptions.methods(), vec![Method::Get]);
    assert_eq!(Endpoint::AddressBook.methods(), vec![Method::Get, Method::Post]);
    assert_eq!(Endpoint::VerifySession.methods(), vec![Method::Post]);
}

#[test]
fn database_is_created_if_it_is_missing() {
    let steps = open_db("x.db", false);
    assert_eq!(steps.len(), 3);
    assert!(matches!(&steps[0], OpenStep::CreateFile(path) if path == "x.db"));
    assert!(matches!(&steps[1], OpenStep::Connect(url) if url == "sqlite://x.db"));
    assert!(matches!(&steps[2], OpenStep::Execute(statements) if *statements == schema()));
    let steps = open_db("x.db", true);
    assert_eq!(steps.len(), 2);
    assert!(matches!(&steps[0], OpenStep::Connect(url) if url == "sqlite://x.db"));
}
