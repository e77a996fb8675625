//! What holds of the command line.

use vstd::prelude::*;

use crate::laws::law_options_are_read_in_turn;
use crate::options::{
    admin_cmd_of, after, default_options, invocation_of, named_port, options_of, read_options,
    AdminCmd, InvocationView, OptionsView, UsageErrorView, DEFAULT_PORT,
};
use crate::text::signed_decimal;

verus! {

/// Without arguments the service listens on port 21115, keeps its data in `api.sqlite3` and trusts
/// no proxy.
pub proof fn law_settings_without_arguments()
    ensures
        default_options() == (OptionsView {
            port: 21115,
            db_path: "api.sqlite3"@,
            trusted_proxy: false,
        }),
        options_of(Seq::empty()) == Ok::<_, UsageErrorView>(
            OptionsView { port: 21115, db_path: "api.sqlite3"@, trusted_proxy: false },
        ),
        DEFAULT_PORT == 21115,
{
}

/// A port is the number that the argument is, if it is one that fits, and zero otherwise.
pub proof fn law_port_is_the_number_of_the_argument(argument: Seq<char>, n: int)
    ensures
        signed_decimal(argument) == Some(n) && -0x8000_0000 <= n <= 0x7fff_ffff ==> named_port(
            argument,
        ) == n,
        signed_decimal(argument) == Some(n) && !(-0x8000_0000 <= n <= 0x7fff_ffff) ==> named_port(
            argument,
        ) == 0,
        signed_decimal(argument) is None ==> named_port(argument) == 0,
{
}

/// The settings are those that were read, with the default port in place of port zero; what is
/// wrong with the arguments is told as it was found.
pub proof fn law_port_zero_is_the_default_port(
    args: Seq<Seq<char>>,
    options: OptionsView,
    error: UsageErrorView,
)
    ensures
        ({
            let read = read_options(
                args,
                OptionsView { port: 21115, db_path: "api.sqlite3"@, trusted_proxy: false },
            );
            &&& read == Ok::<_, UsageErrorView>(options) && options.port != 0 ==> options_of(args)
                == Ok::<_, UsageErrorView>(options)
            &&& read == Ok::<_, UsageErrorView>(options) && options.port == 0 ==> options_of(args)
                == Ok::<_, UsageErrorView>(OptionsView { port: 21115, ..options })
            &&& read == Err::<OptionsView, _>(error) ==> options_of(args) == Err::<OptionsView, _>(
                error,
            )
        }),
{
}

/// The names of the options are all different.
proof fn option_names_differ()
    ensures
        "-p"@ != "-d"@ && "-p"@ != "--db"@ && "-p"@ != "-t"@ && "-p"@ != "--trusted-proxy"@,
        "--port"@ != "-d"@ && "--port"@ != "--db"@ && "--port"@ != "-t"@ && "--port"@
            != "--trusted-proxy"@,
        "-d"@ != "-t"@ && "-d"@ != "--trusted-proxy"@,
        "--db"@ != "-t"@ && "--db"@ != "--trusted-proxy"@,
{
    reveal_strlit("-p");
    reveal_strlit("--port");
    reveal_strlit("-d");
    reveal_strlit("--db");
    reveal_strlit("-t");
    reveal_strlit("--trusted-proxy");
    assert("-p"@.len() == 2 && "-p"@[1] == 'p');
    assert("-d"@.len() == 2 && "-d"@[1] == 'd');
    assert("-t"@.len() == 2 && "-t"@[1] == 't');
    assert("--port"@.len() == 6 && "--db"@.len() == 4 && "--trusted-proxy"@.len() == 15);
}

/// What an option sets is set by the argument behind it, in place of what was set before, and
/// nothing else is. Behind the last option the settings stay as they are.
pub proof fn law_option_sets_what_it_names(
    first: Seq<Seq<char>>,
    options: OptionsView,
    name: Seq<char>,
    value: Seq<char>,
)
    requires
        read_options(first, options) is Ok,
    ensures
        ({
            let before = read_options(first, options)->Ok_0;
            &&& read_options(Seq::empty(), options) == Ok::<_, UsageErrorView>(options)
            &&& name == "-p"@ || name == "--port"@ ==> read_options(
                first + seq![name, value],
                options,
            ) == Ok::<_, UsageErrorView>(OptionsView { port: named_port(value), ..before })
            &&& name == "-d"@ || name == "--db"@ ==> read_options(
                first + seq![name, value],
                options,
            ) == Ok::<_, UsageErrorView>(OptionsView { db_path: value, ..before })
            &&& name == "-t"@ || name == "--trusted-proxy"@ ==> read_options(
                first + seq![name],
                options,
            ) == Ok::<_, UsageErrorView>(OptionsView { trusted_proxy: true, ..before })
        }),
{
    option_names_differ();
    reveal_with_fuel(read_options, 2);
    law_options_are_read_in_turn(first, seq![name, value], options);
    law_options_are_read_in_turn(first, seq![name], options);
    assert(seq![name, value].skip(2) =~= Seq::empty());
    assert(seq![name].skip(1) =~= Seq::empty());
}

/// Reading stops at the first thing that is wrong: an argument that is no option, or an option that
/// wants an argument and has none. What comes behind it does not matter.
pub proof fn law_first_wrong_argument_is_told(
    first: Seq<Seq<char>>,
    options: OptionsView,
    argument: Seq<char>,
    rest: Seq<Seq<char>>,
)
    requires
        read_options(first, options) is Ok,
    ensures
        argument != "-p"@ && argument != "--port"@ && argument != "-d"@ && argument != "--db"@
            && argument != "-t"@ && argument != "--trusted-proxy"@ ==> read_options(
            first + (seq![argument] + rest),
            options,
        ) == Err::<OptionsView, _>(UsageErrorView::UnknownArgument(argument)),
        argument == "-p"@ || argument == "--port"@ ==> read_options(
            first + seq![argument],
            options,
        ) == Err::<OptionsView, _>(UsageErrorView::MissingPort),
        argument == "-d"@ || argument == "--db"@ ==> read_options(first + seq![argument], options)
            == Err::<OptionsView, _>(UsageErrorView::MissingDbPath),
{
    option_names_differ();
    law_options_are_read_in_turn(first, seq![argument] + rest, options);
    law_options_are_read_in_turn(first, seq![argument], options);
    assert((seq![argument] + rest)[0] == argument);
}

/// The arguments from one on are those that follow it, in their order.
pub proof fn law_arguments_from_one_on(args: Seq<Seq<char>>, from: int, i: int)
    requires
        0 <= from,
    ensures
        after(args, from).len() == if from <= args.len() {
            args.len() - from
        } else {
            0
        },
        0 <= i < args.len() - from ==> after(args, from)[i] == args[from + i],
{
}

/// Four arguments name a change of the users, and no others do.
pub proof fn law_changes_of_the_users_are_named(argument: Seq<char>)
    ensures
        admin_cmd_of(argument) == Some(AdminCmd::AddUser) <==> argument == "--add-user"@,
        admin_cmd_of(argument) == Some(AdminCmd::SetPassword) <==> argument == "--set-password"@,
        admin_cmd_of(argument) == Some(AdminCmd::DisableUser) <==> argument == "--disable-user"@,
        admin_cmd_of(argument) == Some(AdminCmd::EnableUser) <==> argument == "--enable-user"@,
        admin_cmd_of(argument) is None <==> argument != "--add-user"@ && argument
            != "--set-password"@ && argument != "--disable-user"@ && argument != "--enable-user"@,
{
    reveal_strlit("--add-user");
    reveal_strlit("--set-password");
    reveal_strlit("--disable-user");
    reveal_strlit("--enable-user");
    assert("--add-user"@.len() == 10 && "--set-password"@.len() == 14);
    assert("--disable-user"@.len() == 14 && "--enable-user"@.len() == 13);
    assert("--set-password"@[2] == 's' && "--disable-user"@[2] == 'd');
}

/// A change of the users is named right behind the program, then comes the user name, as it is, and
/// then come the options. Without a user name the command line is wrong.
pub proof fn law_change_of_the_users_names_the_user(
    program: Seq<char>,
    argument: Seq<char>,
    username: Seq<char>,
    rest: Seq<Seq<char>>,
    cmd: AdminCmd,
)
    requires
        admin_cmd_of(argument) == Some(cmd),
    ensures
        ({
            let args = seq![program, argument, username] + rest;
            match options_of(rest) {
                Ok(options) => invocation_of(args) == Ok::<_, UsageErrorView>(
                    InvocationView::Admin { cmd, username, options },
                ),
                Err(error) => invocation_of(args) == Err::<InvocationView, _>(error),
            }
        }),
        invocation_of(seq![program, argument]) == Err::<InvocationView, _>(
            UsageErrorView::MissingUsername,
        ),
{
    let args = seq![program, argument, username] + rest;
    assert(args.skip(3) =~= rest);
    assert(args[1] == argument && args[2] == username);
}

/// Where no change of the users is named, the service is to run, with all arguments behind the
/// program as its options.
pub proof fn law_service_runs_unless_a_change_is_named(program: Seq<char>, rest: Seq<Seq<char>>)
    requires
        rest.len() > 0 ==> admin_cmd_of(rest[0]) is None,
    ensures
        match options_of(rest) {
            Ok(options) => invocation_of(seq![program] + rest) == Ok::<_, UsageErrorView>(
                InvocationView::Serve { options },
            ),
            Err(error) => invocation_of(seq![program] + rest) == Err::<InvocationView, _>(error),
        },
        invocation_of(Seq::empty()) == Ok::<_, UsageErrorView>(
            InvocationView::Serve {
                options: OptionsView {
                    port: 21115,
                    db_path: "api.sqlite3"@,
                    trusted_proxy: false,
                },
            },
        ),
{
    let args = seq![program] + rest;
    assert(args.skip(1) =~= rest);
    if rest.len() > 0 {
        assert(args[1] == rest[0]);
    }
}

} // verus!
