//! The command line.

use vstd::prelude::*;

use crate::admin::{AdminError, AdminErrorView};
use crate::text::{parse_i32, same_text, signed_decimal, trimmed};

verus! {

/// The port that the service listens on unless it is told otherwise.
pub const DEFAULT_PORT: i32 = 21115;

/// A change of the users that the command line asks for.
#[derive(Clone, Copy, Debug, PartialEq, Eq)]
pub enum AdminCmd {
    AddUser,
    SetPassword,
    DisableUser,
    EnableUser,
}

/// The settings of the service.
#[derive(Debug)]
pub struct Options {
    pub port: i32,
    pub db_path: String,
    pub trusted_proxy: bool,
}

/// [`Options`] as a mathematical value.
pub struct OptionsView {
    pub port: i32,
    pub db_path: Seq<char>,
    pub trusted_proxy: bool,
}

impl View for Options {
    type V = OptionsView;

    open spec fn view(&self) -> OptionsView {
        OptionsView {
            port: self.port,
            db_path: self.db_path@,
            trusted_proxy: self.trusted_proxy,
        }
    }
}

/// What the command line asks for.
#[derive(Debug)]
pub enum Invocation {
    /// Change the users.
    Admin { cmd: AdminCmd, username: String, options: Options },
    /// Run the service.
    Serve { options: Options },
}

/// An [`Invocation`] as a mathematical value.
pub enum InvocationView {
    Admin { cmd: AdminCmd, username: Seq<char>, options: OptionsView },
    Serve { options: OptionsView },
}

impl View for Invocation {
    type V = InvocationView;

    open spec fn view(&self) -> InvocationView {
        match *self {
            Invocation::Admin { cmd, username, options } => InvocationView::Admin {
                cmd,
                username: username@,
                options: options@,
            },
            Invocation::Serve { options } => InvocationView::Serve { options: options@ },
        }
    }
}

/// What is wrong with a command line.
#[derive(Debug)]
pub enum UsageError {
    MissingPort,
    MissingDbPath,
    UnknownArgument(String),
    MissingUsername,
}

/// A [`UsageError`] as a mathematical value.
pub enum UsageErrorView {
    MissingPort,
    MissingDbPath,
    UnknownArgument(Seq<char>),
    MissingUsername,
}

impl View for UsageError {
    type V = UsageErrorView;

    open spec fn view(&self) -> UsageErrorView {
        match *self {
            UsageError::MissingPort => UsageErrorView::MissingPort,
            UsageError::MissingDbPath => UsageErrorView::MissingDbPath,
            UsageError::UnknownArgument(argument) => UsageErrorView::UnknownArgument(argument@),
            UsageError::MissingUsername => UsageErrorView::MissingUsername,
        }
    }
}

impl UsageError {
    /// The error in words.
    pub fn message(&self) -> (res: String)
        ensures
            res@ == match self@ {
                UsageErrorView::MissingPort => "缺少端口参数"@,
                UsageErrorView::MissingDbPath => "缺少数据库路径参数"@,
                UsageErrorView::UnknownArgument(argument) => "未知参数: "@ + argument,
                UsageErrorView::MissingUsername => "缺少用户名"@,
            },
    {
        match self {
            UsageError::MissingPort => "缺少端口参数".to_owned(),
            UsageError::MissingDbPath => "缺少数据库路径参数".to_owned(),
            UsageError::UnknownArgument(argument) => "未知参数: ".to_owned().concat(
                argument.as_str(),
            ),
            UsageError::MissingUsername => "缺少用户名".to_owned(),
        }
    }
}

/// The settings that an empty command line leaves in place.
pub open spec fn default_options() -> OptionsView {
    OptionsView { port: DEFAULT_PORT, db_path: "api.sqlite3"@, trusted_proxy: false }
}

/// The port that an argument names; zero if it is no number.
pub open spec fn named_port(argument: Seq<char>) -> i32 {
    match signed_decimal(argument) {
        Some(n) => if i32::MIN <= n <= i32::MAX {
            n as i32
        } else {
            0
        },
        None => 0,
    }
}

/// The settings after the arguments `args`, of which later ones override earlier ones.
pub open spec fn read_options(args: Seq<Seq<char>>, options: OptionsView) -> Result<
    OptionsView,
    UsageErrorView,
>
    decreases args.len(),
{
    if args.len() == 0 {
        Ok(options)
    } else if args[0] == "-p"@ || args[0] == "--port"@ {
        if args.len() < 2 {
            Err(UsageErrorView::MissingPort)
        } else {
            read_options(args.skip(2), OptionsView { port: named_port(args[1]), ..options })
        }
    } else if args[0] == "-d"@ || args[0] == "--db"@ {
        if args.len() < 2 {
            Err(UsageErrorView::MissingDbPath)
        } else {
            read_options(args.skip(2), OptionsView { db_path: args[1], ..options })
        }
    } else if args[0] == "-t"@ || args[0] == "--trusted-proxy"@ {
        read_options(args.skip(1), OptionsView { trusted_proxy: true, ..options })
    } else {
        Err(UsageErrorView::UnknownArgument(args[0]))
    }
}

/// The settings that a command line asks for. Port zero stands for the default port.
pub open spec fn options_of(args: Seq<Seq<char>>) -> Result<OptionsView, UsageErrorView> {
    match read_options(args, default_options()) {
        Ok(options) => Ok(
            if options.port == 0 {
                OptionsView { port: DEFAULT_PORT, ..options }
            } else {
                options
            },
        ),
        Err(error) => Err(error),
    }
}

/// The change of the users that an argument names.
pub open spec fn admin_cmd_of(argument: Seq<char>) -> Option<AdminCmd> {
    if argument == "--add-user"@ {
        Some(AdminCmd::AddUser)
    } else if argument == "--set-password"@ {
        Some(AdminCmd::SetPassword)
    } else if argument == "--disable-user"@ {
        Some(AdminCmd::DisableUser)
    } else if argument == "--enable-user"@ {
        Some(AdminCmd::EnableUser)
    } else {
        None
    }
}

/// The arguments from the one at `from` on.
pub open spec fn after(args: Seq<Seq<char>>, from: int) -> Seq<Seq<char>> {
    if from <= args.len() {
        args.skip(from)
    } else {
        Seq::empty()
    }
}

/// What a command line asks for; its first item is the name of the program.
pub open spec fn invocation_of(args: Seq<Seq<char>>) -> Result<InvocationView, UsageErrorView> {
    let cmd = if args.len() > 1 {
        admin_cmd_of(args[1])
    } else {
        None
    };
    match cmd {
        Some(cmd) => if args.len() < 3 {
            Err(UsageErrorView::MissingUsername)
        } else {
            match options_of(after(args, 3)) {
                Ok(options) => Ok(InvocationView::Admin { cmd, username: args[2], options }),
                Err(error) => Err(error),
            }
        },
        None => match options_of(after(args, 1)) {
            Ok(options) => Ok(InvocationView::Serve { options }),
            Err(error) => Err(error),
        },
    }
}

/// The arguments as mathematical values.
pub open spec fn texts(args: Seq<String>) -> Seq<Seq<char>> {
    args.map_values(|arg: String| arg@)
}

/// The port that an argument names; zero if it is no number.
fn port_of(argument: &str) -> (res: i32)
    ensures
        res == named_port(argument@),
{
    match parse_i32(argument) {
        Some(port) => port,
        None => 0,
    }
}

/// Reads the settings out of the arguments from the one at `from` on.
pub fn parse_options(args: &[String], from: usize) -> (res: Result<Options, UsageError>)
    ensures
        match res {
            Ok(options) => options_of(after(texts(args@), from as int)) == Ok::<_, UsageErrorView>(
                options@,
            ),
            Err(error) => options_of(after(texts(args@), from as int)) == Err::<OptionsView, _>(
                error@,
            ),
        },
{
    let mut options = Options {
        port: DEFAULT_PORT,
        db_path: "api.sqlite3".to_owned(),
        trusted_proxy: false,
    };
    let ghost all = after(texts(args@), from as int);
    let mut i: usize = from;
    while i < args.len()
        invariant
            i <= args@.len() || i == from,
            all == after(texts(args@), from as int),
            read_options(all, default_options()) == read_options(
                after(texts(args@), i as int),
                options@,
            ),
        decreases args.len() - i,
    {
        let ghost rest = after(texts(args@), i as int);
        assert(rest[0] == args@[i as int]@);
        let arg = args[i].as_str();
        if same_text(arg, "-p") || same_text(arg, "--port") {
            i = i + 1;
            if i >= args.len() {
                return Err(UsageError::MissingPort);
            }
            options.port = port_of(args[i].as_str());
            assert(rest[1] == args@[i as int]@);
            assert(rest.skip(2) =~= after(texts(args@), i + 1));
        } else if same_text(arg, "-d") || same_text(arg, "--db") {
            i = i + 1;
            if i >= args.len() {
                return Err(UsageError::MissingDbPath);
            }
            options.db_path = args[i].clone();
            assert(rest[1] == args@[i as int]@);
            assert(rest.skip(2) =~= after(texts(args@), i + 1));
        } else if same_text(arg, "-t") || same_text(arg, "--trusted-proxy") {
            options.trusted_proxy = true;
            assert(rest.skip(1) =~= after(texts(args@), i + 1));
        } else {
            return Err(UsageError::UnknownArgument(args[i].clone()));
        }
        i = i + 1;
    }
    assert(after(texts(args@), i as int).len() == 0);
    if options.port == 0 {
        options.port = DEFAULT_PORT;
    }
    Ok(options)
}

/// The change of the users that an argument names.
fn parse_admin_cmd(argument: &str) -> (res: Option<AdminCmd>)
    ensures
        res == admin_cmd_of(argument@),
{
    if same_text(argument, "--add-user") {
        Some(AdminCmd::AddUser)
    } else if same_text(argument, "--set-password") {
        Some(AdminCmd::SetPassword)
    } else if same_text(argument, "--disable-user") {
        Some(AdminCmd::DisableUser)
    } else if same_text(argument, "--enable-user") {
        Some(AdminCmd::EnableUser)
    } else {
        None
    }
}

/// Reads the command line; its first item is the name of the program.
pub fn parse_invocation(args: &[String]) -> (res: Result<Invocation, UsageError>)
    ensures
        match res {
            Ok(invocation) => invocation_of(texts(args@)) == Ok::<_, UsageErrorView>(invocation@),
            Err(error) => invocation_of(texts(args@)) == Err::<InvocationView, _>(error@),
        },
{
    let cmd = if args.len() > 1 {
        parse_admin_cmd(args[1].as_str())
    } else {
        None
    };
    match cmd {
        Some(cmd) => {
            if args.len() < 3 {
                return Err(UsageError::MissingUsername);
            }
            let username = args[2].clone();
            match parse_options(args, 3) {
                Ok(options) => Ok(Invocation::Admin { cmd, username, options }),
                Err(error) => Err(error),
            }
        },
        None => match parse_options(args, 1) {
            Ok(options) => Ok(Invocation::Serve { options }),
            Err(error) => Err(error),
        },
    }
}

/// What to do to the users.
#[derive(Debug)]
pub enum AdminTask {
    AddUser { username: String, password: String },
    SetPassword { username: String, password: String },
    SetEnabled { username: String, enabled: bool },
}

/// An [`AdminTask`] as a mathematical value.
pub enum AdminTaskView {
    AddUser { username: Seq<char>, password: Seq<char> },
    SetPassword { username: Seq<char>, password: Seq<char> },
    SetEnabled { username: Seq<char>, enabled: bool },
}

impl View for AdminTask {
    type V = AdminTaskView;

    open spec fn view(&self) -> AdminTaskView {
        match *self {
            AdminTask::AddUser { username, password } => AdminTaskView::AddUser {
                username: username@,
                password: password@,
            },
            AdminTask::SetPassword { username, password } => AdminTaskView::SetPassword {
                username: username@,
                password: password@,
            },
            AdminTask::SetEnabled { username, enabled } => AdminTaskView::SetEnabled {
                username: username@,
                enabled,
            },
        }
    }
}

impl AdminCmd {
    /// How many times to ask for a password.
    pub open spec fn prompts(self) -> nat {
        match self {
            AdminCmd::AddUser => 2,
            AdminCmd::SetPassword => 1,
            AdminCmd::DisableUser => 0,
            AdminCmd::EnableUser => 0,
        }
    }
}

/// What a command asks to be done to a user, given the passwords that were typed in. The password
/// of a new user is asked for twice.
pub open spec fn task_of(cmd: AdminCmd, username: Seq<char>, passwords: Seq<Seq<char>>) -> Result<
    AdminTaskView,
    AdminErrorView,
> {
    match cmd {
        AdminCmd::AddUser => if passwords[0] == passwords[1] {
            Ok(AdminTaskView::AddUser { username, password: passwords[0] })
        } else {
            Err(AdminErrorView::PasswordMismatch)
        },
        AdminCmd::SetPassword => Ok(
            AdminTaskView::SetPassword { username, password: passwords[0] },
        ),
        AdminCmd::DisableUser => Ok(AdminTaskView::SetEnabled { username, enabled: false }),
        AdminCmd::EnableUser => Ok(AdminTaskView::SetEnabled { username, enabled: true }),
    }
}

/// How many times to ask for a password.
pub fn password_prompts(cmd: AdminCmd) -> (res: usize)
    ensures
        res == cmd.prompts(),
{
    match cmd {
        AdminCmd::AddUser => 2,
        AdminCmd::SetPassword => 1,
        AdminCmd::DisableUser => 0,
        AdminCmd::EnableUser => 0,
    }
}

/// The password on a line that was typed in, without the white space around it.
pub fn read_pwd(line: &str) -> (res: String)
    ensures
        res@ == trimmed(line@),
{
    line.trim().to_owned()
}

/// What a command asks to be done to a user, given the passwords that were typed in.
pub fn admin_cmd(cmd: AdminCmd, username: &str, passwords: &[String]) -> (res: Result<
    AdminTask,
    AdminError,
>)
    requires
        passwords@.len() == cmd.prompts(),
    ensures
        match res {
            Ok(task) => task_of(cmd, username@, texts(passwords@)) == Ok::<_, AdminErrorView>(
                task@,
            ),
            Err(error) => task_of(cmd, username@, texts(passwords@)) == Err::<AdminTaskView, _>(
                error@,
            ),
        },
{
    match cmd {
        AdminCmd::AddUser => {
            if passwords[0] != passwords[1] {
                return Err(AdminError::PasswordMismatch);
            }
            Ok(AdminTask::AddUser { username: username.to_owned(), password: passwords[0].clone() })
        },
        AdminCmd::SetPassword => Ok(
            AdminTask::SetPassword {
                username: username.to_owned(),
                password: passwords[0].clone(),
            },
        ),
        AdminCmd::DisableUser => Ok(
            AdminTask::SetEnabled { username: username.to_owned(), enabled: false },
        ),
        AdminCmd::EnableUser => Ok(
            AdminTask::SetEnabled { username: username.to_owned(), enabled: true },
        ),
    }
}

} // verus!
