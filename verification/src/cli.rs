//! Arguments of a command line, described as plain values, and how such a
//! description becomes a `clap` application and how a parsed command line
//! becomes [`ArgValues`].

use vstd::prelude::*;

use crate::arg_values;
use crate::arg_values::ArgValues;

verus! {

#[verifier::external_type_specification]
#[verifier::external_body]
pub struct ExClapApp<'a, 'b>(clap::App<'a, 'b>) where 'a: 'b;

#[verifier::external_type_specification]
#[verifier::external_body]
pub struct ExClapArg<'a, 'b>(clap::Arg<'a, 'b>) where 'a: 'b;

#[verifier::external_type_specification]
#[verifier::external_body]
pub struct ExClapArgMatches<'a>(clap::ArgMatches<'a>);

/// One argument of a command line.
///
/// An argument is either written as a `clap` usage string (`usage`), or
/// built from its `name`; the remaining fields are applied on top. For an
/// argument written as a usage string, `name` is the name that `clap` gives
/// it: its long form, or its short form where it has no long one.
pub struct ArgSpec {
    pub name: &'static str,
    pub usage: Option<&'static str>,
    pub short: Option<&'static str>,
    pub long: Option<&'static str>,
    pub alias: Option<&'static str>,
    pub value_name: Option<&'static str>,
    pub default_value: Option<&'static str>,
    pub possible_values: Vec<&'static str>,
    pub hidden: bool,
    pub help: Option<&'static str>,
}

/// An [`ArgSpec`] with its texts as character sequences.
pub struct ArgSpecView {
    pub name: Seq<char>,
    pub usage: Option<Seq<char>>,
    pub short: Option<Seq<char>>,
    pub long: Option<Seq<char>>,
    pub alias: Option<Seq<char>>,
    pub value_name: Option<Seq<char>>,
    pub default_value: Option<Seq<char>>,
    pub possible_values: Seq<Seq<char>>,
    pub hidden: bool,
    pub help: Option<Seq<char>>,
}

pub open spec fn opt_str(o: Option<&'static str>) -> Option<Seq<char>> {
    match o {
        Some(s) => Some(s@),
        None => None,
    }
}

pub open spec fn strs_view(v: Seq<&'static str>) -> Seq<Seq<char>> {
    v.map_values(|s: &'static str| s@)
}

impl View for ArgSpec {
    type V = ArgSpecView;

    open spec fn view(&self) -> ArgSpecView {
        ArgSpecView {
            name: self.name@,
            usage: opt_str(self.usage),
            short: opt_str(self.short),
            long: opt_str(self.long),
            alias: opt_str(self.alias),
            value_name: opt_str(self.value_name),
            default_value: opt_str(self.default_value),
            possible_values: strs_view(self.possible_values@),
            hidden: self.hidden,
            help: opt_str(self.help),
        }
    }
}

pub open spec fn specs_view(v: Seq<ArgSpec>) -> Seq<ArgSpecView> {
    v.map_values(|a: ArgSpec| a@)
}

/// An argument built from its name alone, with nothing applied on top.
pub open spec fn bare_arg(name: Seq<char>) -> ArgSpecView {
    ArgSpecView {
        name,
        usage: None,
        short: None,
        long: None,
        alias: None,
        value_name: None,
        default_value: None,
        possible_values: Seq::empty(),
        hidden: false,
        help: None,
    }
}

/// An argument written as the usage string `usage`, which `clap` names `name`.
pub open spec fn usage_arg(name: Seq<char>, usage: Seq<char>) -> ArgSpecView {
    ArgSpecView { usage: Some(usage), ..bare_arg(name) }
}

/// An argument with a long form equal to its name, a value name and a help text.
pub open spec fn long_arg(name: Seq<char>, value_name: Seq<char>, help: Seq<char>) -> ArgSpecView {
    ArgSpecView {
        long: Some(name),
        value_name: Some(value_name),
        help: Some(help),
        ..bare_arg(name)
    }
}

impl ArgSpec {
    /// An argument written as the usage string `usage`, which `clap` names `name`.
    pub fn from_usage(name: &'static str, usage: &'static str) -> (r: ArgSpec)
        ensures
            r@ == usage_arg(name@, usage@),
    {
        let r = ArgSpec {
            name,
            usage: Some(usage),
            short: None,
            long: None,
            alias: None,
            value_name: None,
            default_value: None,
            possible_values: Vec::new(),
            hidden: false,
            help: None,
        };
        assert(strs_view(r.possible_values@) =~= Seq::<Seq<char>>::empty());
        r
    }

    /// An argument with a long form equal to its name, a value name and a help text.
    pub fn with_long(name: &'static str, value_name: &'static str, help: &'static str) -> (r: ArgSpec)
        ensures
            r@ == long_arg(name@, value_name@, help@),
    {
        let r = ArgSpec {
            name,
            usage: None,
            short: None,
            long: Some(name),
            alias: None,
            value_name: Some(value_name),
            default_value: None,
            possible_values: Vec::new(),
            hidden: false,
            help: Some(help),
        };
        assert(strs_view(r.possible_values@) =~= Seq::<Seq<char>>::empty());
        r
    }
}

// ----- what `clap` holds ------------------------------------------------------------------

/// What `clap` holds of one argument.
pub struct ClapArgView {
    pub name: Seq<char>,
    pub short: Option<char>,
    pub long: Option<Seq<char>>,
    pub aliases: Seq<Seq<char>>,
    pub value_names: Seq<Seq<char>>,
    pub takes_value: bool,
    pub required: bool,
    pub default_value: Option<Seq<char>>,
    pub possible_values: Seq<Seq<char>>,
    pub hidden: bool,
    pub help: Option<Seq<char>>,
    pub index: Option<nat>,
    pub global: bool,
    pub last: bool,
}

/// What `clap` holds of a subcommand of an application.
pub struct ClapSubcommandView {
    pub name: Seq<char>,
    pub about: Option<Seq<char>>,
    pub args: Seq<ClapArgView>,
    pub positionals: Map<nat, ClapArgView>,
}

/// What `clap` holds of an application: its name and description, its flags
/// and options in the order they were added, its positional arguments by
/// index, and its subcommands in the order they were added.
pub struct ClapAppView {
    pub name: Seq<char>,
    pub about: Option<Seq<char>>,
    pub args: Seq<ClapArgView>,
    pub positionals: Map<nat, ClapArgView>,
    pub subcommands: Seq<ClapSubcommandView>,
}

/// What a `clap` argument holds.
pub uninterp spec fn arg_view(arg: clap::Arg) -> ClapArgView;

/// What a `clap` application holds.
pub uninterp spec fn app_view(app: clap::App) -> ClapAppView;

/// An argument that has a name and nothing else.
pub open spec fn named_view(name: Seq<char>) -> ClapArgView {
    ClapArgView {
        name,
        short: None,
        long: None,
        aliases: Seq::empty(),
        value_names: Seq::empty(),
        takes_value: false,
        required: false,
        default_value: None,
        possible_values: Seq::empty(),
        hidden: false,
        help: None,
        index: None,
        global: false,
        last: false,
    }
}

/// `s` without its leading dashes.
pub open spec fn trim_dashes(s: Seq<char>) -> Seq<char>
    decreases s.len(),
{
    if s.len() > 0 && s[0] == '-' {
        trim_dashes(s.drop_first())
    } else {
        s
    }
}

pub open spec fn first_char(s: Seq<char>) -> Option<char> {
    if s.len() > 0 {
        Some(s[0])
    } else {
        None
    }
}

pub open spec fn with_short(v: ClapArgView, s: Seq<char>) -> ClapArgView {
    ClapArgView { short: first_char(trim_dashes(s)), ..v }
}

pub open spec fn with_long(v: ClapArgView, l: Seq<char>) -> ClapArgView {
    ClapArgView { long: Some(trim_dashes(l)), ..v }
}

pub open spec fn with_alias(v: ClapArgView, a: Seq<char>) -> ClapArgView {
    ClapArgView { aliases: v.aliases.push(a), ..v }
}

pub open spec fn with_value_name(v: ClapArgView, n: Seq<char>) -> ClapArgView {
    ClapArgView { takes_value: true, value_names: v.value_names.push(n), ..v }
}

pub open spec fn with_default(v: ClapArgView, d: Seq<char>) -> ClapArgView {
    ClapArgView { takes_value: true, default_value: Some(d), ..v }
}

pub open spec fn with_possible_values(v: ClapArgView, p: Seq<Seq<char>>) -> ClapArgView {
    ClapArgView { possible_values: v.possible_values + p, ..v }
}

pub open spec fn with_hidden(v: ClapArgView, h: bool) -> ClapArgView {
    ClapArgView { hidden: h, ..v }
}

pub open spec fn with_help(v: ClapArgView, h: Seq<char>) -> ClapArgView {
    ClapArgView { help: Some(h), ..v }
}

/// A flag written as a usage string: its long form is its name.
pub open spec fn usage_flag(name: Seq<char>, short: Option<char>, help: Seq<char>) -> ClapArgView {
    ClapArgView { long: Some(name), short, help: Some(help), ..named_view(name) }
}

/// An option written as a usage string: its long form is its name, and it
/// takes one value; written `<V>` it is required, written `[V]` it is not.
pub open spec fn usage_option(
    name: Seq<char>,
    short: Option<char>,
    value_name: Seq<char>,
    required: bool,
    help: Seq<char>,
) -> ClapArgView {
    ClapArgView {
        long: Some(name),
        short,
        value_names: seq![value_name],
        takes_value: true,
        required,
        help: Some(help),
        ..named_view(name)
    }
}

/// What `clap` parses each usage string of this library into; any other
/// string is not a usage string of this library.
#[verifier::opaque]
pub open spec fn usage_view(u: Seq<char>) -> Option<ClapArgView> {
    if u == "-d, --debug 'print debug output'"@ {
        Some(usage_flag("debug"@, Some('d'), "print debug output"@))
    } else if u == "--myrouter-port=[PORT]    'port for local myrouter instance'"@ {
        Some(usage_option("myrouter-port"@, None, "PORT"@, false, "port for local myrouter instance"@))
    } else if u == "--cache-size-gb [SIZE] 'size of the cachelib cache, in GiB'"@ {
        Some(usage_option("cache-size-gb"@, None, "SIZE"@, false, "size of the cachelib cache, in GiB"@))
    } else if u == "--use-tupperware-shrinker 'Use the Tupperware-aware cache shrinker to avoid OOM'"@ {
        Some(usage_flag("use-tupperware-shrinker"@, None, "Use the Tupperware-aware cache shrinker to avoid OOM"@))
    } else if u == "--max-process-size [SIZE] 'process size at which cachelib will shrink, in GiB'"@ {
        Some(usage_option("max-process-size"@, None, "SIZE"@, false, "process size at which cachelib will shrink, in GiB"@))
    } else if u == "--min-process-size [SIZE] 'process size at which cachelib will grow back to cache-size-gb, in GiB'"@ {
        Some(usage_option("min-process-size"@, None, "SIZE"@, false, "process size at which cachelib will grow back to cache-size-gb, in GiB"@))
    } else if u == "--with-content-sha1-cache  '[Mononoke API Server only] enable content SHA1 cache'"@ {
        Some(usage_flag("with-content-sha1-cache"@, None, "[Mononoke API Server only] enable content SHA1 cache"@))
    } else if u == "--do-not-init-cachelib 'do not init cachelib (useful for tests)'"@ {
        Some(usage_flag("do-not-init-cachelib"@, None, "do not init cachelib (useful for tests)"@))
    } else if u == "-R, --repository=<REPO> 'repository name'"@ {
        Some(usage_option("repository"@, Some('R'), "REPO"@, true, "repository name"@))
    } else if u == "--query-string [QUERY_STRING] 'original query string passed to repository path'"@ {
        Some(usage_option("query-string"@, None, "QUERY_STRING"@, false, "original query string passed to repository path"@))
    } else if u == "--remote-proxy 'hgcli is run as remote proxy, not locally'"@ {
        Some(usage_flag("remote-proxy"@, None, "hgcli is run as remote proxy, not locally"@))
    } else if u == "--scuba-table [SCUBA_TABLE] 'name of scuba table to log to'"@ {
        Some(usage_option("scuba-table"@, None, "SCUBA_TABLE"@, false, "name of scuba table to log to"@))
    } else if u == "--mononoke-path <PATH> 'path to connect to mononoke server'"@ {
        Some(usage_option("mononoke-path"@, None, "PATH"@, true, "path to connect to mononoke server"@))
    } else if u == "-A, --accesslog [FILE] 'name of access log file'"@ {
        Some(usage_option("accesslog"@, Some('A'), "FILE"@, false, "name of access log file"@))
    } else if u == "-d, --daemon 'run server in background'"@ {
        Some(usage_flag("daemon"@, Some('d'), "run server in background"@))
    } else if u == "-E, --errorlog [FILE] 'name of error log file to write to'"@ {
        Some(usage_option("errorlog"@, Some('E'), "FILE"@, false, "name of error log file to write to"@))
    } else if u == "-p, --port <PORT> 'port to listen on'"@ {
        Some(usage_option("port"@, Some('p'), "PORT"@, true, "port to listen on"@))
    } else if u == "-a, --address [ADDR] 'address to listen on'"@ {
        Some(usage_option("address"@, Some('a'), "ADDR"@, false, "address to listen on"@))
    } else if u == "--cert [CERT]  'path to the certificate file'"@ {
        Some(usage_option("cert"@, None, "CERT"@, false, "path to the certificate file"@))
    } else if u == "--ca-pem [PEM] 'path to the pem file'"@ {
        Some(usage_option("ca-pem"@, None, "PEM"@, false, "path to the pem file"@))
    } else if u == "--private-key [KEY] 'path to the private key'"@ {
        Some(usage_option("private-key"@, None, "KEY"@, false, "path to the private key"@))
    } else if u == "--common-name [CN] 'expected SSL common name of the server see https://www.ssl.com/faqs/common-name/'"@ {
        Some(usage_option("common-name"@, None, "CN"@, false, "expected SSL common name of the server see https://www.ssl.com/faqs/common-name/"@))
    } else if u == "--stdio 'for remote clients'"@ {
        Some(usage_flag("stdio"@, None, "for remote clients"@))
    } else if u == "--cmdserver [MODE] 'for remote clients'"@ {
        Some(usage_option("cmdserver"@, None, "MODE"@, false, "for remote clients"@))
    } else if u == "--mock-username [USERNAME] 'use only in tests, send this username instead of the currently logged in'"@ {
        Some(usage_option("mock-username"@, None, "USERNAME"@, false, "use only in tests, send this username instead of the currently logged in"@))
    } else {
        None
    }
}

/// What `clap` makes of each usage string of the library.
#[verifier::rlimit(100)]
pub proof fn lemma_usage_views()
    ensures
        usage_view("-d, --debug 'print debug output'"@) == Some(usage_flag("debug"@, Some('d'), "print debug output"@)),
        usage_view("--myrouter-port=[PORT]    'port for local myrouter instance'"@) == Some(usage_option("myrouter-port"@, None, "PORT"@, false, "port for local myrouter instance"@)),
        usage_view("--cache-size-gb [SIZE] 'size of the cachelib cache, in GiB'"@) == Some(usage_option("cache-size-gb"@, None, "SIZE"@, false, "size of the cachelib cache, in GiB"@)),
        usage_view("--use-tupperware-shrinker 'Use the Tupperware-aware cache shrinker to avoid OOM'"@) == Some(usage_flag("use-tupperware-shrinker"@, None, "Use the Tupperware-aware cache shrinker to avoid OOM"@)),
        usage_view("--max-process-size [SIZE] 'process size at which cachelib will shrink, in GiB'"@) == Some(usage_option("max-process-size"@, None, "SIZE"@, false, "process size at which cachelib will shrink, in GiB"@)),
        usage_view("--min-process-size [SIZE] 'process size at which cachelib will grow back to cache-size-gb, in GiB'"@) == Some(usage_option("min-process-size"@, None, "SIZE"@, false, "process size at which cachelib will grow back to cache-size-gb, in GiB"@)),
        usage_view("--with-content-sha1-cache  '[Mononoke API Server only] enable content SHA1 cache'"@) == Some(usage_flag("with-content-sha1-cache"@, None, "[Mononoke API Server only] enable content SHA1 cache"@)),
        usage_view("--do-not-init-cachelib 'do not init cachelib (useful for tests)'"@) == Some(usage_flag("do-not-init-cachelib"@, None, "do not init cachelib (useful for tests)"@)),
        usage_view("-R, --repository=<REPO> 'repository name'"@) == Some(usage_option("repository"@, Some('R'), "REPO"@, true, "repository name"@)),
        usage_view("--query-string [QUERY_STRING] 'original query string passed to repository path'"@) == Some(usage_option("query-string"@, None, "QUERY_STRING"@, false, "original query string passed to repository path"@)),
        usage_view("--remote-proxy 'hgcli is run as remote proxy, not locally'"@) == Some(usage_flag("remote-proxy"@, None, "hgcli is run as remote proxy, not locally"@)),
        usage_view("--scuba-table [SCUBA_TABLE] 'name of scuba table to log to'"@) == Some(usage_option("scuba-table"@, None, "SCUBA_TABLE"@, false, "name of scuba table to log to"@)),
        usage_view("--mononoke-path <PATH> 'path to connect to mononoke server'"@) == Some(usage_option("mononoke-path"@, None, "PATH"@, true, "path to connect to mononoke server"@)),
        usage_view("-A, --accesslog [FILE] 'name of access log file'"@) == Some(usage_option("accesslog"@, Some('A'), "FILE"@, false, "name of access log file"@)),
        usage_view("-d, --daemon 'run server in background'"@) == Some(usage_flag("daemon"@, Some('d'), "run server in background"@)),
        usage_view("-E, --errorlog [FILE] 'name of error log file to write to'"@) == Some(usage_option("errorlog"@, Some('E'), "FILE"@, false, "name of error log file to write to"@)),
        usage_view("-p, --port <PORT> 'port to listen on'"@) == Some(usage_option("port"@, Some('p'), "PORT"@, true, "port to listen on"@)),
        usage_view("-a, --address [ADDR] 'address to listen on'"@) == Some(usage_option("address"@, Some('a'), "ADDR"@, false, "address to listen on"@)),
        usage_view("--cert [CERT]  'path to the certificate file'"@) == Some(usage_option("cert"@, None, "CERT"@, false, "path to the certificate file"@)),
        usage_view("--ca-pem [PEM] 'path to the pem file'"@) == Some(usage_option("ca-pem"@, None, "PEM"@, false, "path to the pem file"@)),
        usage_view("--private-key [KEY] 'path to the private key'"@) == Some(usage_option("private-key"@, None, "KEY"@, false, "path to the private key"@)),
        usage_view("--common-name [CN] 'expected SSL common name of the server see https://www.ssl.com/faqs/common-name/'"@) == Some(usage_option("common-name"@, None, "CN"@, false, "expected SSL common name of the server see https://www.ssl.com/faqs/common-name/"@)),
        usage_view("--stdio 'for remote clients'"@) == Some(usage_flag("stdio"@, None, "for remote clients"@)),
        usage_view("--cmdserver [MODE] 'for remote clients'"@) == Some(usage_option("cmdserver"@, None, "MODE"@, false, "for remote clients"@)),
        usage_view("--mock-username [USERNAME] 'use only in tests, send this username instead of the currently logged in'"@) == Some(usage_option("mock-username"@, None, "USERNAME"@, false, "use only in tests, send this username instead of the currently logged in"@)),
{
    reveal(usage_view);
    reveal_strlit("-d, --debug 'print debug output'");
    reveal_strlit("--myrouter-port=[PORT]    'port for local myrouter instance'");
    reveal_strlit("--cache-size-gb [SIZE] 'size of the cachelib cache, in GiB'");
    reveal_strlit("--use-tupperware-shrinker 'Use the Tupperware-aware cache shrinker to avoid OOM'");
    reveal_strlit("--max-process-size [SIZE] 'process size at which cachelib will shrink, in GiB'");
    reveal_strlit("--min-process-size [SIZE] 'process size at which cachelib will grow back to cache-size-gb, in GiB'");
    reveal_strlit("--with-content-sha1-cache  '[Mononoke API Server only] enable content SHA1 cache'");
    reveal_strlit("--do-not-init-cachelib 'do not init cachelib (useful for tests)'");
    reveal_strlit("-R, --repository=<REPO> 'repository name'");
    reveal_strlit("--query-string [QUERY_STRING] 'original query string passed to repository path'");
    reveal_strlit("--remote-proxy 'hgcli is run as remote proxy, not locally'");
    reveal_strlit("--scuba-table [SCUBA_TABLE] 'name of scuba table to log to'");
    reveal_strlit("--mononoke-path <PATH> 'path to connect to mononoke server'");
    reveal_strlit("-A, --accesslog [FILE] 'name of access log file'");
    reveal_strlit("-d, --daemon 'run server in background'");
    reveal_strlit("-E, --errorlog [FILE] 'name of error log file to write to'");
    reveal_strlit("-p, --port <PORT> 'port to listen on'");
    reveal_strlit("-a, --address [ADDR] 'address to listen on'");
    reveal_strlit("--cert [CERT]  'path to the certificate file'");
    reveal_strlit("--ca-pem [PEM] 'path to the pem file'");
    reveal_strlit("--private-key [KEY] 'path to the private key'");
    reveal_strlit("--common-name [CN] 'expected SSL common name of the server see https://www.ssl.com/faqs/common-name/'");
    reveal_strlit("--stdio 'for remote clients'");
    reveal_strlit("--cmdserver [MODE] 'for remote clients'");
    reveal_strlit("--mock-username [USERNAME] 'use only in tests, send this username instead of the currently logged in'");
    assert("-d, --debug 'print debug output'"@.len() == 32);
    assert("--myrouter-port=[PORT]    'port for local myrouter instance'"@.len() == 60);
    assert("--cache-size-gb [SIZE] 'size of the cachelib cache, in GiB'"@.len() == 59);
    assert("--use-tupperware-shrinker 'Use the Tupperware-aware cache shrinker to avoid OOM'"@.len() == 80);
    assert("--max-process-size [SIZE] 'process size at which cachelib will shrink, in GiB'"@.len() == 78);
    assert("--min-process-size [SIZE] 'process size at which cachelib will grow back to cache-size-gb, in GiB'"@.len() == 98);
    assert("--with-content-sha1-cache  '[Mononoke API Server only] enable content SHA1 cache'"@.len() == 81);
    assert("--do-not-init-cachelib 'do not init cachelib (useful for tests)'"@.len() == 64);
    assert("-R, --repository=<REPO> 'repository name'"@.len() == 41);
    assert("--query-string [QUERY_STRING] 'original query string passed to repository path'"@.len() == 79);
    assert("--remote-proxy 'hgcli is run as remote proxy, not locally'"@.len() == 58);
    assert("--scuba-table [SCUBA_TABLE] 'name of scuba table to log to'"@.len() == 59);
    assert("--mononoke-path <PATH> 'path to connect to mononoke server'"@.len() == 59);
    assert("-A, --accesslog [FILE] 'name of access log file'"@.len() == 48);
    assert("-d, --daemon 'run server in background'"@.len() == 39);
    assert("-E, --errorlog [FILE] 'name of error log file to write to'"@.len() == 58);
    assert("-p, --port <PORT> 'port to listen on'"@.len() == 37);
    assert("-a, --address [ADDR] 'address to listen on'"@.len() == 43);
    assert("--cert [CERT]  'path to the certificate file'"@.len() == 45);
    assert("--ca-pem [PEM] 'path to the pem file'"@.len() == 37);
    assert("--private-key [KEY] 'path to the private key'"@.len() == 45);
    assert("--common-name [CN] 'expected SSL common name of the server see https://www.ssl.com/faqs/common-name/'"@.len() == 101);
    assert("--stdio 'for remote clients'"@.len() == 28);
    assert("--cmdserver [MODE] 'for remote clients'"@.len() == 39);
    assert("--mock-username [USERNAME] 'use only in tests, send this username instead of the currently logged in'"@.len() == 101);
    assert("--cache-size-gb [SIZE] 'size of the cachelib cache, in GiB'"@[2] == 'c' && "--scuba-table [SCUBA_TABLE] 'name of scuba table to log to'"@[2] == 's');
    assert("--cache-size-gb [SIZE] 'size of the cachelib cache, in GiB'"@[2] == 'c' && "--mononoke-path <PATH> 'path to connect to mononoke server'"@[2] == 'm');
    assert("--remote-proxy 'hgcli is run as remote proxy, not locally'"@[1] == '-' && "-E, --errorlog [FILE] 'name of error log file to write to'"@[1] == 'E');
    assert("--scuba-table [SCUBA_TABLE] 'name of scuba table to log to'"@[2] == 's' && "--mononoke-path <PATH> 'path to connect to mononoke server'"@[2] == 'm');
    assert("-d, --daemon 'run server in background'"@[1] == 'd' && "--cmdserver [MODE] 'for remote clients'"@[1] == '-');
    assert("-p, --port <PORT> 'port to listen on'"@[1] == 'p' && "--ca-pem [PEM] 'path to the pem file'"@[1] == '-');
    assert("--cert [CERT]  'path to the certificate file'"@[2] == 'c' && "--private-key [KEY] 'path to the private key'"@[2] == 'p');
    assert("--common-name [CN] 'expected SSL common name of the server see https://www.ssl.com/faqs/common-name/'"@[2] == 'c' && "--mock-username [USERNAME] 'use only in tests, send this username instead of the currently logged in'"@[2] == 'm');
}

/// The usage strings that this library hands to `clap`.
pub open spec fn is_library_usage(u: Seq<char>) -> bool {
    usage_view(u) is Some
}

/// The `clap` argument that the description `a` stands for.
#[verifier::opaque]
pub open spec fn clap_view(a: ArgSpecView) -> ClapArgView {
    let base = match a.usage {
        Some(u) => usage_view(u)->0,
        None => named_view(a.name),
    };
    let v = match a.short {
        Some(s) => with_short(base, s),
        None => base,
    };
    let v = match a.long {
        Some(l) => with_long(v, l),
        None => v,
    };
    let v = match a.alias {
        Some(x) => with_alias(v, x),
        None => v,
    };
    let v = match a.value_name {
        Some(n) => with_value_name(v, n),
        None => v,
    };
    let v = match a.default_value {
        Some(d) => with_default(v, d),
        None => v,
    };
    let v = if a.possible_values.len() > 0 {
        with_possible_values(v, a.possible_values)
    } else {
        v
    };
    let v = if a.hidden {
        with_hidden(v, true)
    } else {
        v
    };
    match a.help {
        Some(h) => with_help(v, h),
        None => v,
    }
}

/// An argument that can be handed to `clap`: a usage string, if any, is one
/// of the library's own, and `clap` gives the argument the description's name.
pub open spec fn spec_well_formed(a: ArgSpecView) -> bool {
    &&& a.usage matches Some(u) ==> is_library_usage(u) && usage_view(u)->0.name == a.name
}

pub open spec fn all_well_formed(v: Seq<ArgSpecView>) -> bool {
    forall|i: int| 0 <= i < v.len() ==> spec_well_formed(#[trigger] v[i])
}

/// The `clap` arguments that a sequence of descriptions stands for.
pub open spec fn clap_views(v: Seq<ArgSpecView>) -> Seq<ClapArgView> {
    v.map_values(|a: ArgSpecView| clap_view(a))
}

/// Whether `v` is positional: it has neither a short nor a long form, or an index.
pub open spec fn is_positional(v: ClapArgView) -> bool {
    v.index is Some || (v.short is None && v.long is None)
}

/// The index that `clap` gives `v` among the positional arguments of `a`.
pub open spec fn position_in(a: ClapAppView, v: ClapArgView) -> nat {
    match v.index {
        Some(i) => i,
        None => a.positionals.dom().len() + 1,
    }
}

/// What `clap` keeps of an argument that it files as a flag (no value), an
/// option, or a positional argument at `index`.
pub open spec fn kept_view(v: ClapArgView, index: nat) -> ClapArgView {
    if is_positional(v) {
        ClapArgView { short: None, long: None, aliases: Seq::empty(), index: Some(index), ..v }
    } else if v.takes_value {
        v
    } else {
        ClapArgView { value_names: Seq::empty(), default_value: None, possible_values: Seq::empty(), ..v }
    }
}

/// `clap` accepts `v` into `a`: its name, long form and short form are not
/// taken, the slot it would take among the positional arguments is free, and
/// it is neither global nor marked to come last.
pub open spec fn can_add(a: ClapAppView, v: ClapArgView) -> bool {
    &&& !v.global
    &&& !v.last
    &&& forall|i: int| 0 <= i < a.args.len() ==> (#[trigger] a.args[i]).name != v.name
    &&& forall|k: nat| #[trigger] a.positionals.contains_key(k) ==> a.positionals[k].name != v.name
    &&& v.long is Some ==> forall|i: int| 0 <= i < a.args.len() ==> (#[trigger] a.args[i]).long != v.long
    &&& v.short is Some ==> forall|i: int| 0 <= i < a.args.len() ==> (#[trigger] a.args[i]).short != v.short
    &&& !a.positionals.contains_key(position_in(a, v))
}

/// `a` with the argument `v` added.
pub open spec fn with_arg(a: ClapAppView, v: ClapArgView) -> ClapAppView {
    if is_positional(v) {
        let i = position_in(a, v);
        ClapAppView { positionals: a.positionals.insert(i, kept_view(v, i)), ..a }
    } else {
        ClapAppView { args: a.args.push(kept_view(v, 0)), ..a }
    }
}

/// `a` with the arguments `vs` added, in order.
pub open spec fn with_args(a: ClapAppView, vs: Seq<ClapArgView>) -> ClapAppView
    decreases vs.len(),
{
    if vs.len() == 0 {
        a
    } else {
        with_arg(with_args(a, vs.drop_last()), vs.last())
    }
}

/// `clap` accepts each of `vs` into `a`, with the ones before it added.
pub open spec fn can_add_all(a: ClapAppView, vs: Seq<ClapArgView>) -> bool {
    forall|j: int| 0 <= j < vs.len() ==> can_add(with_args(a, vs.take(j)), #[trigger] vs[j])
}

/// A flag or option as `clap` keeps it: it is not positional, not global,
/// not marked to come last, and if it takes no value it has no value names,
/// default or possible values.
pub open spec fn is_plain(v: ClapArgView) -> bool {
    &&& v.index is None
    &&& v.long is Some
    &&& !v.global
    &&& !v.last
    &&& !v.takes_value ==> v.value_names.len() == 0 && v.default_value is None && v.possible_values.len() == 0
}

/// Every one of `vs` is a plain flag or option.
pub open spec fn all_plain(vs: Seq<ClapArgView>) -> bool {
    forall|i: int| 0 <= i < vs.len() ==> is_plain(#[trigger] vs[i])
}

/// No two of `vs` share a name, a long form or a short form.
pub open spec fn distinct_keys(vs: Seq<ClapArgView>) -> bool {
    forall|i: int, j: int|
        0 <= i < j < vs.len() ==> {
            &&& (#[trigger] vs[i]).name != (#[trigger] vs[j]).name
            &&& vs[i].long != vs[j].long
            &&& (vs[i].short is Some ==> vs[i].short != vs[j].short)
        }
}

/// Adding plain arguments to an application without positional arguments
/// appends them to its flags and options.
pub proof fn lemma_with_plain_args(a: ClapAppView, vs: Seq<ClapArgView>)
    requires
        forall|i: int| 0 <= i < vs.len() ==> is_plain(#[trigger] vs[i]),
    ensures
        with_args(a, vs) == (ClapAppView { args: a.args + vs, ..a }),
    decreases vs.len(),
{
    if vs.len() > 0 {
        lemma_with_plain_args(a, vs.drop_last());
        let v = vs.last();
        assert(is_plain(v));
        if !v.takes_value {
            assert(v.value_names =~= Seq::empty());
            assert(v.possible_values =~= Seq::empty());
        }
        assert(kept_view(v, 0) == v);
        assert(vs.drop_last().push(vs.last()) =~= vs);
        assert(a.args + vs.drop_last() + seq![vs.last()] =~= a.args + vs);
    } else {
        assert(a.args + vs =~= a.args);
    }
}

/// Plain arguments whose names, long forms and short forms are all distinct,
/// from each other and from those of an application without positional
/// arguments, can all be added to it.
pub proof fn lemma_can_add_plain(a: ClapAppView, vs: Seq<ClapArgView>)
    requires
        a.positionals.dom() == Set::<nat>::empty(),
        forall|i: int| 0 <= i < vs.len() ==> is_plain(#[trigger] vs[i]),
        distinct_keys(a.args + vs),
    ensures
        can_add_all(a, vs),
{
    assert forall|j: int| 0 <= j < vs.len() implies can_add(with_args(a, vs.take(j)), #[trigger] vs[j]) by {
        let pre = vs.take(j);
        lemma_with_plain_args(a, pre);
        let b = with_args(a, pre);
        let all = a.args + vs;
        assert(b.args =~= all.take(a.args.len() + j));
        assert(all[a.args.len() + j] == vs[j]);
        assert forall|i: int| 0 <= i < b.args.len() implies (#[trigger] b.args[i]).name != vs[j].name
            && b.args[i].long != vs[j].long && (vs[j].short is Some ==> b.args[i].short != vs[j].short) by {
            assert(b.args[i] == all[i]);
        }
        assert(b.positionals.dom() =~= Set::<nat>::empty());
    }
}

/// A description by name, whose long form is that name and which takes a value.
pub open spec fn is_long_named(a: ArgSpecView) -> bool {
    &&& a.usage is None
    &&& a.long == Some(a.name)
    &&& a.name.len() > 0
    &&& a.name[0] != '-'
    &&& a.value_name is Some
}

/// What `clap` makes of a description by name whose long form is that name.
pub proof fn lemma_long_named_view(a: ArgSpecView)
    requires
        is_long_named(a),
    ensures
        clap_view(a).name == a.name,
        clap_view(a).long == Some(a.name),
        clap_view(a).short == (match a.short {
            Some(s) => first_char(trim_dashes(s)),
            None => None,
        }),
        is_plain(clap_view(a)),
{
    reveal(clap_view);
    assert(trim_dashes(a.name) == a.name);
}

/// A description written as one of the library's usage strings, which
/// `clap` files as a flag or option whose long form is its name, with at most
/// a default value and possible values on top.
pub open spec fn is_usage_named(a: ArgSpecView) -> bool {
    &&& a.usage matches Some(u) && usage_view(u) matches Some(v) && {
        &&& v.name == a.name
        &&& v.long == Some(a.name)
        &&& is_plain(v)
        &&& (a.default_value is Some || a.possible_values.len() > 0) ==> v.takes_value
    }
    &&& a.short is None
    &&& a.long is None
    &&& a.alias is None
    &&& a.value_name is None
}

/// What `clap` makes of a description written as a usage string.
pub proof fn lemma_usage_named_view(a: ArgSpecView)
    requires
        is_usage_named(a),
    ensures
        spec_well_formed(a),
        clap_view(a).name == a.name,
        clap_view(a).long == Some(a.name),
        clap_view(a).short == usage_view(a.usage->0)->0.short,
        is_plain(clap_view(a)),
{
    reveal(clap_view);
}

/// Descriptions whose `clap` arguments are plain, each with its name as
/// its long form, with distinct names, and with distinct short forms where
/// they have one, give arguments that share no name, long or short form.
pub proof fn lemma_distinct_by_name(vs: Seq<ClapArgView>)
    requires
        forall|i: int| 0 <= i < vs.len() ==> (#[trigger] vs[i]).long == Some(vs[i].name),
        forall|i: int, j: int| 0 <= i < j < vs.len() ==> (#[trigger] vs[i]).name != (#[trigger] vs[j]).name,
        forall|i: int, j: int|
            0 <= i < j < vs.len() && (#[trigger] vs[i]).short is Some ==> vs[i].short != (#[trigger] vs[j]).short,
    ensures
        distinct_keys(vs),
{
}

/// The `clap` arguments of two descriptions in a row are those of each in a row.
pub proof fn lemma_clap_views_append(a: Seq<ArgSpecView>, b: Seq<ArgSpecView>)
    ensures
        clap_views(a + b) == clap_views(a) + clap_views(b),
{
    assert(clap_views(a + b) =~= clap_views(a) + clap_views(b));
}

/// A prefix of arguments that share no name, long or short form shares none either.
pub proof fn lemma_distinct_prefix(vs: Seq<ClapArgView>, n: int)
    requires
        distinct_keys(vs),
        0 <= n <= vs.len(),
    ensures
        distinct_keys(vs.take(n)),
{
    assert forall|i: int, j: int| 0 <= i < j < n implies {
        &&& (#[trigger] vs.take(n)[i]).name != (#[trigger] vs.take(n)[j]).name
        &&& vs.take(n)[i].long != vs.take(n)[j].long
        &&& (vs.take(n)[i].short is Some ==> vs.take(n)[i].short != vs.take(n)[j].short)
    } by {
        assert(vs.take(n)[i] == vs[i]);
        assert(vs.take(n)[j] == vs[j]);
    }
}

/// Adding plain arguments that share no name, long or short form with each
/// other or with an application's own, to an application without positional
/// arguments, is accepted and appends them to its flags and options.
pub proof fn lemma_add_plain(a: ClapAppView, vs: Seq<ClapArgView>)
    requires
        a.positionals.dom() == Set::<nat>::empty(),
        forall|i: int| 0 <= i < vs.len() ==> is_plain(#[trigger] vs[i]),
        distinct_keys(a.args + vs),
    ensures
        can_add_all(a, vs),
        with_args(a, vs) == (ClapAppView { args: a.args + vs, ..a }),
{
    lemma_can_add_plain(a, vs);
    lemma_with_plain_args(a, vs);
}

/// Wraps `clap::App::new`: an application named `name`, with no arguments,
/// no description and no subcommands.
#[verifier::external_body]
pub(crate) fn clap_app(name: String) -> (r: clap::App<'static, 'static>)
    ensures
        app_view(r) == (ClapAppView {
            name: name@,
            about: None,
            args: Seq::empty(),
            positionals: Map::empty(),
            subcommands: Seq::empty(),
        }),
{
    clap::App::new(name)
}

/// Wraps `clap::App::about`: sets the application's description and leaves
/// all else as it was.
#[verifier::external_body]
pub(crate) fn clap_app_about(app: clap::App<'static, 'static>, about: &'static str) -> (r: clap::App<
    'static,
    'static,
>)
    ensures
        app_view(r) == (ClapAppView { about: Some(about@), ..app_view(app) }),
{
    app.about(about)
}

/// Wraps `clap::App::arg`. Its source files the argument as a positional
/// argument (one with an index, or with neither a short nor a long form), as
/// an option (one that takes a value) or as a flag, and in debug builds
/// asserts that its name, long form, short form and positional slot are free
/// and that it is not both global and required; a flag keeps no value
/// settings, and a positional argument no short or long form.
#[verifier::external_body]
pub(crate) fn clap_app_arg(app: clap::App<'static, 'static>, arg: clap::Arg<'static, 'static>) -> (r: clap::App<
    'static,
    'static,
>)
    requires
        can_add(app_view(app), arg_view(arg)),
    ensures
        app_view(r) == with_arg(app_view(app), arg_view(arg)),
{
    app.arg(arg)
}

/// What an application keeps of a subcommand.
pub open spec fn subcommand_view(s: ClapAppView) -> ClapSubcommandView {
    ClapSubcommandView { name: s.name, about: s.about, args: s.args, positionals: s.positionals }
}

/// Wraps `clap::App::subcommand`: appends `sub` to the application's
/// subcommands and leaves all else as it was.
#[verifier::external_body]
pub(crate) fn clap_app_subcommand(
    app: clap::App<'static, 'static>,
    sub: clap::App<'static, 'static>,
) -> (r: clap::App<'static, 'static>)
    ensures
        app_view(r) == (ClapAppView {
            subcommands: app_view(app).subcommands.push(subcommand_view(app_view(sub))),
            ..app_view(app)
        }),
{
    app.subcommand(sub)
}

/// Wraps `clap::Arg::with_name`: an argument named `name` and nothing else.
#[verifier::external_body]
fn clap_arg_named(name: &'static str) -> (r: clap::Arg<'static, 'static>)
    ensures
        arg_view(r) == named_view(name@),
{
    clap::Arg::with_name(name)
}

/// Wraps `clap::Arg::from_usage`, on the library's own usage strings: what
/// its usage parser makes of each is [`usage_view`]. (On a string that names
/// no argument its source asserts in debug builds.)
#[verifier::external_body]
fn clap_arg_from_usage(usage: &'static str) -> (r: clap::Arg<'static, 'static>)
    requires
        is_library_usage(usage@),
    ensures
        arg_view(r) == usage_view(usage@)->0,
{
    clap::Arg::from_usage(usage)
}

/// Wraps `clap::Arg::short`: the short form is the first character of
/// `short` after its leading dashes, if any.
#[verifier::external_body]
fn clap_arg_short(arg: clap::Arg<'static, 'static>, short: &'static str) -> (r: clap::Arg<'static, 'static>)
    ensures
        arg_view(r) == with_short(arg_view(arg), short@),
{
    arg.short(short)
}

/// Wraps `clap::Arg::long`: the long form is `long` without its leading dashes.
#[verifier::external_body]
fn clap_arg_long(arg: clap::Arg<'static, 'static>, long: &'static str) -> (r: clap::Arg<'static, 'static>)
    ensures
        arg_view(r) == with_long(arg_view(arg), long@),
{
    arg.long(long)
}

/// Wraps `clap::Arg::alias`: appends a hidden alias.
#[verifier::external_body]
fn clap_arg_alias(arg: clap::Arg<'static, 'static>, alias: &'static str) -> (r: clap::Arg<'static, 'static>)
    ensures
        arg_view(r) == with_alias(arg_view(arg), alias@),
{
    arg.alias(alias)
}

/// Wraps `clap::Arg::value_name`: appends a value name; the argument takes a value.
#[verifier::external_body]
fn clap_arg_value_name(arg: clap::Arg<'static, 'static>, value_name: &'static str) -> (r: clap::Arg<
    'static,
    'static,
>)
    ensures
        arg_view(r) == with_value_name(arg_view(arg), value_name@),
{
    arg.value_name(value_name)
}

/// Wraps `clap::Arg::default_value`: sets the default; the argument takes a value.
#[verifier::external_body]
fn clap_arg_default_value(arg: clap::Arg<'static, 'static>, value: &'static str) -> (r: clap::Arg<
    'static,
    'static,
>)
    ensures
        arg_view(r) == with_default(arg_view(arg), value@),
{
    arg.default_value(value)
}

/// Wraps `clap::Arg::possible_values`: appends the values to those allowed.
#[verifier::external_body]
fn clap_arg_possible_values(arg: clap::Arg<'static, 'static>, values: &Vec<&'static str>) -> (r: clap::Arg<
    'static,
    'static,
>)
    ensures
        arg_view(r) == with_possible_values(arg_view(arg), strs_view(values@)),
{
    arg.possible_values(values.as_slice())
}

/// Wraps `clap::Arg::hidden`: whether help leaves the argument out.
#[verifier::external_body]
fn clap_arg_hidden(arg: clap::Arg<'static, 'static>, hidden: bool) -> (r: clap::Arg<'static, 'static>)
    ensures
        arg_view(r) == with_hidden(arg_view(arg), hidden),
{
    arg.hidden(hidden)
}

/// Wraps `clap::Arg::help`: sets the help text.
#[verifier::external_body]
fn clap_arg_help(arg: clap::Arg<'static, 'static>, help: &'static str) -> (r: clap::Arg<'static, 'static>)
    ensures
        arg_view(r) == with_help(arg_view(arg), help@),
{
    arg.help(help)
}

/// What a parsed command line holds, by name: every argument that occurred,
/// with its first value where it has one that is valid UTF-8 (and `None`
/// where it has no value or one that is not), and the subcommand that
/// occurred, if any, with no value.
pub uninterp spec fn matched_args(matches: clap::ArgMatches) -> Map<Seq<char>, Option<Seq<char>>>;

/// The arguments of a parsed command line whose first value is not valid UTF-8.
pub uninterp spec fn non_text_args(matches: clap::ArgMatches) -> Set<Seq<char>>;

/// Wraps `clap::ArgMatches::is_present`. Its source answers whether `name`
/// is among the arguments that occurred or is the name of the subcommand
/// that occurred: whether it is a name of [`matched_args`].
#[verifier::external_body]
fn clap_is_present(matches: &clap::ArgMatches<'_>, name: &str) -> (r: bool)
    ensures
        r == matched_args(*matches).contains_key(name@),
{
    matches.is_present(name)
}

/// Wraps `clap::ArgMatches::value_of_os`, which never panics, with its result
/// taken as text where it is valid UTF-8: `None` where the argument `name`
/// did not occur with a value (also for the name of a subcommand),
/// `Some(None)` where its first value is not valid UTF-8, and that value as
/// text otherwise.
#[verifier::external_body]
fn clap_value_text(matches: &clap::ArgMatches<'_>, name: &str) -> (r: Option<Option<String>>)
    ensures
        match r {
            None => arg_values::value_in(matched_args(*matches), name@) is None && !non_text_args(
                *matches,
            ).contains(name@),
            Some(None) => matched_args(*matches).contains_key(name@) && arg_values::value_in(
                matched_args(*matches),
                name@,
            ) is None && non_text_args(*matches).contains(name@),
            Some(Some(s)) => arg_values::value_in(matched_args(*matches), name@) == Some(s@)
                && !non_text_args(*matches).contains(name@),
        },
{
    matches.value_of_os(name).map(|v| v.to_str().map(|t| t.to_string()))
}

/// The names of the arguments of `specs`.
pub open spec fn spec_names(specs: Seq<ArgSpec>) -> Set<Seq<char>> {
    Set::new(|k: Seq<char>| exists|i: int| 0 <= i < specs.len() && specs[i].name@ == k)
}

/// The `clap` argument that `spec` describes.
pub fn to_clap_arg(spec: &ArgSpec) -> (r: clap::Arg<'static, 'static>)
    requires
        spec_well_formed(spec@),
    ensures
        arg_view(r) == clap_view(spec@),
{
    reveal(clap_view);
    let mut arg = match spec.usage {
        Some(u) => clap_arg_from_usage(u),
        None => clap_arg_named(spec.name),
    };
    if let Some(s) = spec.short {
        arg = clap_arg_short(arg, s);
    }
    if let Some(l) = spec.long {
        arg = clap_arg_long(arg, l);
    }
    if let Some(a) = spec.alias {
        arg = clap_arg_alias(arg, a);
    }
    if let Some(v) = spec.value_name {
        arg = clap_arg_value_name(arg, v);
    }
    if let Some(d) = spec.default_value {
        arg = clap_arg_default_value(arg, d);
    }
    if spec.possible_values.len() > 0 {
        arg = clap_arg_possible_values(arg, &spec.possible_values);
    }
    if spec.hidden {
        arg = clap_arg_hidden(arg, true);
    }
    if let Some(h) = spec.help {
        arg = clap_arg_help(arg, h);
    }
    arg
}

/// Adds every argument of `specs` to `app`, in order.
pub fn add_args(app: clap::App<'static, 'static>, specs: &Vec<ArgSpec>) -> (r: clap::App<'static, 'static>)
    requires
        all_well_formed(specs_view(specs@)),
        can_add_all(app_view(app), clap_views(specs_view(specs@))),
    ensures
        app_view(r) == with_args(app_view(app), clap_views(specs_view(specs@))),
{
    let ghost start = app_view(app);
    let ghost views = clap_views(specs_view(specs@));
    let mut app = app;
    let mut i: usize = 0;
    assert(views.take(0) =~= Seq::<ClapArgView>::empty());
    while i < specs.len()
        invariant
            i <= specs.len(),
            views == clap_views(specs_view(specs@)),
            all_well_formed(specs_view(specs@)),
            can_add_all(start, views),
            app_view(app) == with_args(start, views.take(i as int)),
        decreases specs.len() - i,
    {
        assert(spec_well_formed(specs_view(specs@)[i as int]));
        let arg = to_clap_arg(&specs[i]);
        assert(arg_view(arg) == views[i as int]);
        assert(can_add(with_args(start, views.take(i as int)), views[i as int]));
        app = clap_app_arg(app, arg);
        assert(views.take(i + 1).drop_last() =~= views.take(i as int));
        i = i + 1;
    }
    assert(views.take(specs.len() as int) =~= views);
    app
}

/// The values that a parsed command line gives to the arguments of `specs`:
/// of what the command line holds, exactly what is held under the names of
/// `specs`, with those of its values that are not valid UTF-8 marked so.
pub fn read_args(matches: &clap::ArgMatches<'_>, specs: &Vec<ArgSpec>) -> (r: ArgValues)
    ensures
        r@ == matched_args(*matches).restrict(spec_names(specs@)),
        r.not_text() == non_text_args(*matches).intersect(spec_names(specs@)),
{
    let ghost matched = matched_args(*matches);
    let ghost odd = non_text_args(*matches);
    let mut r = ArgValues::new();
    let mut i: usize = 0;
    assert(spec_names(specs@.take(0)) =~= Set::<Seq<char>>::empty());
    assert(r@ =~= matched.restrict(spec_names(specs@.take(0))));
    assert(r.not_text() =~= odd.intersect(spec_names(specs@.take(0))));
    while i < specs.len()
        invariant
            i <= specs.len(),
            matched == matched_args(*matches),
            odd == non_text_args(*matches),
            r@ == matched.restrict(spec_names(specs@.take(i as int))),
            r.not_text() == odd.intersect(spec_names(specs@.take(i as int))),
        decreases specs.len() - i,
    {
        let name = specs[i].name;
        let ghost before = spec_names(specs@.take(i as int));
        let ghost after = spec_names(specs@.take(i + 1));
        assert(after =~= before.insert(name@)) by {
            assert forall|k: Seq<char>| after.contains(k) implies before.insert(name@).contains(k) by {
                let j = choose|j: int| 0 <= j < i + 1 && (#[trigger] specs@.take(i + 1)[j]).name@ == k;
                if j < i {
                    assert(specs@.take(i as int)[j] == specs@.take(i + 1)[j]);
                }
            }
            assert forall|k: Seq<char>| before.insert(name@).contains(k) implies after.contains(k) by {
                if k == name@ {
                    assert(specs@.take(i + 1)[i as int].name@ == k);
                } else {
                    let j = choose|j: int| 0 <= j < i && (#[trigger] specs@.take(i as int)[j]).name@ == k;
                    assert(specs@.take(i as int)[j] == specs@.take(i + 1)[j]);
                }
            }
        }
        let value = clap_value_text(matches, name);
        if clap_is_present(matches, name) {
            let key = name.to_string();
            assert(key@ == name@);
            match value {
                Some(Some(text)) => r.insert(key, Some(text)),
                Some(None) => r.insert_not_text(key),
                None => r.insert(key, None),
            }
            assert(r@ =~= matched.restrict(after));
            assert(r.not_text() =~= odd.intersect(after));
        } else {
            assert(r@ =~= matched.restrict(after));
            assert(r.not_text() =~= odd.intersect(after));
        }
        i = i + 1;
    }
    assert(specs@.take(specs@.len() as int) =~= specs@);
    r
}

} // verus!
