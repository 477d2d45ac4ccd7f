//! The command line of `hgcli`, the minimally compatible Mercurial CLI in
//! front of a Mononoke server.

use vstd::prelude::*;

use crate::cli;
use crate::cli::{
    add_args, clap_app, clap_app_about, clap_app_subcommand, ArgSpec, ArgSpecView,
};

verus! {

pub open spec fn hgcli_args() -> Seq<ArgSpecView> {
    seq![
        cli::usage_arg("repository"@, "-R, --repository=<REPO> 'repository name'"@),
        cli::usage_arg(
            "query-string"@,
            "--query-string [QUERY_STRING] 'original query string passed to repository path'"@,
        ),
        cli::usage_arg("remote-proxy"@, "--remote-proxy 'hgcli is run as remote proxy, not locally'"@),
        cli::usage_arg("scuba-table"@, "--scuba-table [SCUBA_TABLE] 'name of scuba table to log to'"@),
    ]
}

pub open spec fn serve_args() -> Seq<ArgSpecView> {
    seq![
        cli::usage_arg("mononoke-path"@, "--mononoke-path <PATH> 'path to connect to mononoke server'"@),
        cli::usage_arg("accesslog"@, "-A, --accesslog [FILE] 'name of access log file'"@),
        cli::usage_arg("daemon"@, "-d, --daemon 'run server in background'"@),
        cli::usage_arg("errorlog"@, "-E, --errorlog [FILE] 'name of error log file to write to'"@),
        ArgSpecView {
            default_value: Some("8000"@),
            ..cli::usage_arg("port"@, "-p, --port <PORT> 'port to listen on'"@)
        },
        cli::usage_arg("address"@, "-a, --address [ADDR] 'address to listen on'"@),
        cli::usage_arg("cert"@, "--cert [CERT]  'path to the certificate file'"@),
        cli::usage_arg("ca-pem"@, "--ca-pem [PEM] 'path to the pem file'"@),
        cli::usage_arg("private-key"@, "--private-key [KEY] 'path to the private key'"@),
        cli::usage_arg(
            "common-name"@,
            "--common-name [CN] 'expected SSL common name of the server see https://www.ssl.com/faqs/common-name/'"@,
        ),
        cli::usage_arg("stdio"@, "--stdio 'for remote clients'"@),
        ArgSpecView {
            possible_values: seq!["pipe"@, "unix"@],
            ..cli::usage_arg("cmdserver"@, "--cmdserver [MODE] 'for remote clients'"@)
        },
        cli::usage_arg(
            "mock-username"@,
            "--mock-username [USERNAME] 'use only in tests, send this username instead of the currently logged in'"@,
        ),
    ]
}

/// The arguments of `hgcli` itself.
pub fn hgcli_arg_specs() -> (r: Vec<ArgSpec>)
    ensures
        cli::specs_view(r@) == hgcli_args(),
{
    let mut r: Vec<ArgSpec> = Vec::new();
    r.push(ArgSpec::from_usage("repository", "-R, --repository=<REPO> 'repository name'"));
    r.push(
        ArgSpec::from_usage(
            "query-string",
            "--query-string [QUERY_STRING] 'original query string passed to repository path'",
        ),
    );
    r.push(ArgSpec::from_usage("remote-proxy", "--remote-proxy 'hgcli is run as remote proxy, not locally'"));
    r.push(ArgSpec::from_usage("scuba-table", "--scuba-table [SCUBA_TABLE] 'name of scuba table to log to'"));
    assert(cli::specs_view(r@) =~= hgcli_args());
    r
}

/// The arguments of the `serve` subcommand.
pub fn serve_arg_specs() -> (r: Vec<ArgSpec>)
    ensures
        cli::specs_view(r@) == serve_args(),
{
    let mut r: Vec<ArgSpec> = Vec::new();
    r.push(ArgSpec::from_usage("mononoke-path", "--mononoke-path <PATH> 'path to connect to mononoke server'"));
    r.push(ArgSpec::from_usage("accesslog", "-A, --accesslog [FILE] 'name of access log file'"));
    r.push(ArgSpec::from_usage("daemon", "-d, --daemon 'run server in background'"));
    r.push(ArgSpec::from_usage("errorlog", "-E, --errorlog [FILE] 'name of error log file to write to'"));
    let mut port = ArgSpec::from_usage("port", "-p, --port <PORT> 'port to listen on'");
    port.default_value = Some("8000");
    r.push(port);
    r.push(ArgSpec::from_usage("address", "-a, --address [ADDR] 'address to listen on'"));
    r.push(ArgSpec::from_usage("cert", "--cert [CERT]  'path to the certificate file'"));
    r.push(ArgSpec::from_usage("ca-pem", "--ca-pem [PEM] 'path to the pem file'"));
    r.push(ArgSpec::from_usage("private-key", "--private-key [KEY] 'path to the private key'"));
    r.push(
        ArgSpec::from_usage(
            "common-name",
            "--common-name [CN] 'expected SSL common name of the server see https://www.ssl.com/faqs/common-name/'",
        ),
    );
    r.push(ArgSpec::from_usage("stdio", "--stdio 'for remote clients'"));
    let mut cmdserver = ArgSpec::from_usage("cmdserver", "--cmdserver [MODE] 'for remote clients'");
    cmdserver.possible_values = vec!["pipe", "unix"];
    assert(cli::strs_view(cmdserver.possible_values@) =~= seq!["pipe"@, "unix"@]);
    r.push(cmdserver);
    r.push(
        ArgSpec::from_usage(
            "mock-username",
            "--mock-username [USERNAME] 'use only in tests, send this username instead of the currently logged in'",
        ),
    );
    assert(cli::specs_view(r@) =~= serve_args());
    r
}

/// What `clap` makes of the descriptions of `hgcli`'s own arguments: each
/// can be handed to `clap`, each gives a plain flag or option, and no two
/// share a name, long or short form.
#[verifier::rlimit(100)]
proof fn lemma_hgcli_arg_views()
    ensures
        cli::all_well_formed(hgcli_args()),
        cli::all_plain(cli::clap_views(hgcli_args())),
        cli::distinct_keys(cli::clap_views(hgcli_args())),
{
    let m = hgcli_args();
    let v = cli::clap_views(m);
    cli::lemma_usage_views();
    reveal_strlit("repository");
    assert("repository"@.len() == 10);
    reveal_strlit("query-string");
    assert("query-string"@.len() == 12);
    reveal_strlit("remote-proxy");
    assert("remote-proxy"@.len() == 12);
    reveal_strlit("scuba-table");
    assert("scuba-table"@.len() == 11);
    assert("query-string"@[0] == 'q' && "remote-proxy"@[0] == 'r');
    assert(m.len() == 4);
    assert forall|i: int| 0 <= i < 4 implies {
        &&& cli::spec_well_formed(#[trigger] m[i])
        &&& cli::clap_view(m[i]).long == Some(m[i].name)
        &&& cli::clap_view(m[i]).name == m[i].name
        &&& cli::is_plain(cli::clap_view(m[i]))
        &&& (cli::clap_view(m[i]).short is Some ==> (i == 0 && cli::clap_view(m[i]).short == Some('R')))
    } by {
        if i == 0 {
            assert(m[0].name == "repository"@);
            cli::lemma_usage_named_view(m[0]);
        } else if i == 1 {
            assert(m[1].name == "query-string"@);
            cli::lemma_usage_named_view(m[1]);
        } else if i == 2 {
            assert(m[2].name == "remote-proxy"@);
            cli::lemma_usage_named_view(m[2]);
        } else if i == 3 {
            assert(m[3].name == "scuba-table"@);
            cli::lemma_usage_named_view(m[3]);
        }
    }
    assert forall|i: int| 0 <= i < 4 implies (#[trigger] v[i]) == cli::clap_view(m[i]) by {}
    cli::lemma_distinct_by_name(v);
}

/// The same of the arguments of the `serve` subcommand.
#[verifier::rlimit(100)]
proof fn lemma_serve_arg_views()
    ensures
        cli::all_well_formed(serve_args()),
        cli::all_plain(cli::clap_views(serve_args())),
        cli::distinct_keys(cli::clap_views(serve_args())),
{
    let m = serve_args();
    let v = cli::clap_views(m);
    cli::lemma_usage_views();
    reveal_strlit("mononoke-path");
    assert("mononoke-path"@.len() == 13);
    reveal_strlit("accesslog");
    assert("accesslog"@.len() == 9);
    reveal_strlit("daemon");
    assert("daemon"@.len() == 6);
    reveal_strlit("errorlog");
    assert("errorlog"@.len() == 8);
    reveal_strlit("port");
    assert("port"@.len() == 4);
    reveal_strlit("address");
    assert("address"@.len() == 7);
    reveal_strlit("cert");
    assert("cert"@.len() == 4);
    reveal_strlit("ca-pem");
    assert("ca-pem"@.len() == 6);
    reveal_strlit("private-key");
    assert("private-key"@.len() == 11);
    reveal_strlit("common-name");
    assert("common-name"@.len() == 11);
    reveal_strlit("stdio");
    assert("stdio"@.len() == 5);
    reveal_strlit("cmdserver");
    assert("cmdserver"@.len() == 9);
    reveal_strlit("mock-username");
    assert("mock-username"@.len() == 13);
    assert("mononoke-path"@[2] == 'n' && "mock-username"@[2] == 'c');
    assert("accesslog"@[0] == 'a' && "cmdserver"@[0] == 'c');
    assert("daemon"@[0] == 'd' && "ca-pem"@[0] == 'c');
    assert("port"@[0] == 'p' && "cert"@[0] == 'c');
    assert("private-key"@[0] == 'p' && "common-name"@[0] == 'c');
    assert(m.len() == 13);
    assert forall|i: int| 0 <= i < 13 implies {
        &&& cli::spec_well_formed(#[trigger] m[i])
        &&& cli::clap_view(m[i]).long == Some(m[i].name)
        &&& cli::clap_view(m[i]).name == m[i].name
        &&& cli::is_plain(cli::clap_view(m[i]))
        &&& (cli::clap_view(m[i]).short is Some ==> (i == 1 && cli::clap_view(m[i]).short == Some('A')) || (i == 2 && cli::clap_view(m[i]).short == Some('d')) || (i == 3 && cli::clap_view(m[i]).short == Some('E')) || (i == 4 && cli::clap_view(m[i]).short == Some('p')) || (i == 5 && cli::clap_view(m[i]).short == Some('a')))
    } by {
        if i == 0 {
            assert(m[0].name == "mononoke-path"@);
            cli::lemma_usage_named_view(m[0]);
        } else if i == 1 {
            assert(m[1].name == "accesslog"@);
            cli::lemma_usage_named_view(m[1]);
        } else if i == 2 {
            assert(m[2].name == "daemon"@);
            cli::lemma_usage_named_view(m[2]);
        } else if i == 3 {
            assert(m[3].name == "errorlog"@);
            cli::lemma_usage_named_view(m[3]);
        } else if i == 4 {
            assert(m[4].name == "port"@);
            cli::lemma_usage_named_view(m[4]);
        } else if i == 5 {
            assert(m[5].name == "address"@);
            cli::lemma_usage_named_view(m[5]);
        } else if i == 6 {
            assert(m[6].name == "cert"@);
            cli::lemma_usage_named_view(m[6]);
        } else if i == 7 {
            assert(m[7].name == "ca-pem"@);
            cli::lemma_usage_named_view(m[7]);
        } else if i == 8 {
            assert(m[8].name == "private-key"@);
            cli::lemma_usage_named_view(m[8]);
        } else if i == 9 {
            assert(m[9].name == "common-name"@);
            cli::lemma_usage_named_view(m[9]);
        } else if i == 10 {
            assert(m[10].name == "stdio"@);
            cli::lemma_usage_named_view(m[10]);
        } else if i == 11 {
            assert(m[11].name == "cmdserver"@);
            cli::lemma_usage_named_view(m[11]);
        } else if i == 12 {
            assert(m[12].name == "mock-username"@);
            cli::lemma_usage_named_view(m[12]);
        }
    }
    assert forall|i: int| 0 <= i < 13 implies (#[trigger] v[i]) == cli::clap_view(m[i]) by {}
    cli::lemma_distinct_by_name(v);
}

/// What `clap` holds of `hgcli`'s arguments: the repository, `-R`, is
/// required and takes a value; of `serve`'s, the Mononoke path and the port,
/// `-p`, are required, the port defaults to 8000, `-d` runs the server in
/// the background, and the command server takes one of two modes. No other
/// argument of either restricts its values, and none but the port has a
/// default.
pub proof fn lemma_hgcli_arguments()
    ensures
        ({
            let top = cli::clap_views(hgcli_args());
            let serve = cli::clap_views(serve_args());
            &&& top.len() == 4 && serve.len() == 13
            &&& top[0].name == "repository"@ && top[0].short == Some('R') && top[0].required && top[0].takes_value
            &&& serve[0].name == "mononoke-path"@ && serve[0].required
            &&& serve[2].name == "daemon"@ && serve[2].short == Some('d') && !serve[2].takes_value
            &&& serve[4].name == "port"@ && serve[4].short == Some('p') && serve[4].required
                && serve[4].default_value == Some("8000"@)
            &&& serve[11].name == "cmdserver"@ && serve[11].possible_values == seq!["pipe"@, "unix"@]
            &&& forall|i: int| 0 <= i < 4 ==> (#[trigger] top[i]).possible_values.len() == 0
                && top[i].default_value is None
            &&& forall|i: int| 0 <= i < 13 && i != 11 ==> (#[trigger] serve[i]).possible_values.len() == 0
            &&& forall|i: int| 0 <= i < 13 && i != 4 ==> (#[trigger] serve[i]).default_value is None
        }),
{
    cli::lemma_usage_views();
    reveal(cli::clap_view);
    let top = cli::clap_views(hgcli_args());
    let serve = cli::clap_views(serve_args());
    assert(top[0] == cli::clap_view(hgcli_args()[0]));
    assert(serve[0] == cli::clap_view(serve_args()[0]));
    assert(serve[2] == cli::clap_view(serve_args()[2]));
    assert(serve[4] == cli::clap_view(serve_args()[4]));
    assert(serve[11] == cli::clap_view(serve_args()[11]));
    assert(Seq::<Seq<char>>::empty() + seq!["pipe"@, "unix"@] =~= seq!["pipe"@, "unix"@]);
    assert forall|i: int| 0 <= i < 4 implies (#[trigger] top[i]).possible_values.len() == 0
        && top[i].default_value is None by {
        if i == 0 {
            assert(top[0] == cli::clap_view(hgcli_args()[0]));
        } else if i == 1 {
            assert(top[1] == cli::clap_view(hgcli_args()[1]));
        } else if i == 2 {
            assert(top[2] == cli::clap_view(hgcli_args()[2]));
        } else if i == 3 {
            assert(top[3] == cli::clap_view(hgcli_args()[3]));
        }
    }
    assert forall|i: int| 0 <= i < 13 implies ((#[trigger] serve[i]).possible_values.len() == 0 || i == 11)
        && (serve[i].default_value is None || i == 4) by {
        if i == 0 {
            assert(serve[0] == cli::clap_view(serve_args()[0]));
        } else if i == 1 {
            assert(serve[1] == cli::clap_view(serve_args()[1]));
        } else if i == 2 {
            assert(serve[2] == cli::clap_view(serve_args()[2]));
        } else if i == 3 {
            assert(serve[3] == cli::clap_view(serve_args()[3]));
        } else if i == 4 {
            assert(serve[4] == cli::clap_view(serve_args()[4]));
        } else if i == 5 {
            assert(serve[5] == cli::clap_view(serve_args()[5]));
        } else if i == 6 {
            assert(serve[6] == cli::clap_view(serve_args()[6]));
        } else if i == 7 {
            assert(serve[7] == cli::clap_view(serve_args()[7]));
        } else if i == 8 {
            assert(serve[8] == cli::clap_view(serve_args()[8]));
        } else if i == 9 {
            assert(serve[9] == cli::clap_view(serve_args()[9]));
        } else if i == 10 {
            assert(serve[10] == cli::clap_view(serve_args()[10]));
        } else if i == 11 {
            assert(serve[11] == cli::clap_view(serve_args()[11]));
        } else if i == 12 {
            assert(serve[12] == cli::clap_view(serve_args()[12]));
        }
    }
}

/// The `hgcli` application: the arguments of [`hgcli_arg_specs`] and a
/// `serve` subcommand with the arguments of [`serve_arg_specs`].
pub fn hgcli_app() -> (r: clap::App<'static, 'static>)
    ensures
        cli::app_view(r) == (cli::ClapAppView {
            name: "Mononoke CLI"@,
            about: Some("Provide minimally compatible CLI to Mononoke server"@),
            args: cli::clap_views(hgcli_args()),
            positionals: Map::empty(),
            subcommands: seq![
                cli::ClapSubcommandView {
                    name: "serve"@,
                    about: Some("start server"@),
                    args: cli::clap_views(serve_args()),
                    positionals: Map::empty(),
                },
            ],
        }),
{
    let top = hgcli_arg_specs();
    let serve = serve_arg_specs();
    proof {
        lemma_hgcli_arg_views();
        lemma_serve_arg_views();
    }
    let serve_name = "serve".to_string();
    let serve_app = clap_app_about(clap_app(serve_name), "start server");
    proof {
        let a = cli::app_view(serve_app);
        assert(a.args + cli::clap_views(serve_args()) =~= cli::clap_views(serve_args()));
        assert(a.positionals.dom() =~= Set::<nat>::empty());
        cli::lemma_add_plain(a, cli::clap_views(serve_args()));
    }
    let serve_app = add_args(serve_app, &serve);
    let top_name = "Mononoke CLI".to_string();
    let app = clap_app_about(clap_app(top_name), "Provide minimally compatible CLI to Mononoke server");
    proof {
        let a = cli::app_view(app);
        assert(a.args + cli::clap_views(hgcli_args()) =~= cli::clap_views(hgcli_args()));
        assert(a.positionals.dom() =~= Set::<nat>::empty());
        cli::lemma_add_plain(a, cli::clap_views(hgcli_args()));
    }
    let app = add_args(app, &top);
    let r = clap_app_subcommand(app, serve_app);
    proof {
        assert(cli::app_view(serve_app).args =~= cli::clap_views(serve_args()));
        assert(cli::app_view(r).args =~= cli::clap_views(hgcli_args()));
    }
    r
}

} // verus!
