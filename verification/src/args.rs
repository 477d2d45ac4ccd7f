//! The arguments that every Mononoke tool registers, and how the values given
//! to them are read back.

use vstd::prelude::*;

use crate::arg_values;
use crate::arg_values::ArgValues;
use crate::cli;
use crate::repo::{ManifoldArgs, MysqlBlobstoreArgs, RemoteBlobstoreArgs, RepositoryId};
use crate::text::{parse_i64, parse_u16, parse_u32, parse_u64, parse_usize, str_eq};
use crate::text;
use crate::cli::{add_args, clap_app, ArgSpec, ArgSpecView};

verus! {

/// Options that shape the arguments of a Mononoke-based command-line tool.
pub struct MononokeApp {
    /// Whether to redirect writes to non-production by default. Note that this isn't (yet)
    /// foolproof.
    pub safe_writes: bool,
    /// Whether to hide advanced Manifold configuration from help. Note that the arguments will
    /// still be available, just not displayed in help.
    pub hide_advanced_args: bool,
    /// Whether this tool can deal with local instances (which are very useful for testing).
    pub local_instances: bool,
    /// Whether to use glog by default.
    pub default_glog: bool,
}

// ----- what the arguments are ------------------------------------------------------------

pub open spec fn debug_arg() -> ArgSpecView {
    cli::usage_arg("debug"@, "-d, --debug 'print debug output'"@)
}

pub open spec fn repo_id_arg() -> ArgSpecView {
    ArgSpecView {
        alias: Some("repo_id"@),
        default_value: Some("0"@),
        ..cli::long_arg("repo-id"@, "ID"@, "numeric ID of repository"@)
    }
}

/// The log style used where none is given.
pub open spec fn default_log_style(default_glog: bool) -> Seq<char> {
    if default_glog {
        "glog"@
    } else {
        "compact"@
    }
}

pub open spec fn log_style_arg(default_glog: bool) -> ArgSpecView {
    ArgSpecView {
        short: Some("l"@),
        possible_values: seq!["compact"@, "glog"@],
        default_value: Some(default_log_style(default_glog)),
        ..cli::long_arg("log-style"@, "STYLE"@, "log style to use for output"@)
    }
}

pub open spec fn panic_fate_arg() -> ArgSpecView {
    ArgSpecView {
        possible_values: seq!["continue"@, "exit"@, "abort"@],
        default_value: Some("abort"@),
        ..cli::long_arg("panic-fate"@, "PANIC_FATE"@, "fate of the process when a panic happens"@)
    }
}

pub open spec fn config_path_arg() -> ArgSpecView {
    cli::long_arg("mononoke-config-path"@, "MONONOKE_CONFIG_PATH"@, "Path to the Mononoke configs"@)
}

/// The Manifold bucket; an advanced argument, which help leaves out where
/// the tool hides those.
pub open spec fn manifold_bucket_arg(hide: bool) -> ArgSpecView {
    ArgSpecView {
        default_value: Some("mononoke_prod"@),
        hidden: hide,
        ..cli::long_arg("manifold-bucket"@, "BUCKET"@, "manifold bucket"@)
    }
}

/// The Manifold prefix used where none is given: writes go to a test
/// prefix when the tool asks for safe writes.
pub open spec fn default_manifold_prefix(safe_writes: bool) -> Seq<char> {
    if safe_writes {
        "mononoke_test"@
    } else {
        ""@
    }
}

/// The Manifold prefix; an advanced argument, which help leaves out where
/// the tool hides those.
pub open spec fn manifold_prefix_arg(safe_writes: bool, hide: bool) -> ArgSpecView {
    ArgSpecView {
        default_value: Some(default_manifold_prefix(safe_writes)),
        hidden: hide,
        ..cli::long_arg("manifold-prefix"@, "PREFIX"@, "manifold prefix"@)
    }
}

pub open spec fn shardmap_arg() -> ArgSpecView {
    cli::long_arg(
        "mysql-blobstore-shardmap"@,
        "SHARDMAP"@,
        "mysql blobstore shardmap, if provided mysql is used instead of manifold"@,
    )
}

pub open spec fn shard_num_arg() -> ArgSpecView {
    ArgSpecView {
        default_value: Some("100"@),
        ..cli::long_arg("mysql-blobstore-shard-num"@, "SHARD_NUM"@, "mysql blobstore shard num"@)
    }
}

pub open spec fn db_address_arg() -> ArgSpecView {
    ArgSpecView {
        default_value: Some("xdb.mononoke_production"@),
        ..cli::long_arg("db-address"@, "ADDRESS"@, "database address"@)
    }
}

pub open spec fn filenode_shards_arg() -> ArgSpecView {
    cli::long_arg("filenode-shards"@, "SHARD_COUNT"@, "number of shards to spread filenodes across"@)
}

/// The arguments that every Mononoke tool starts with.
pub open spec fn base_args(safe_writes: bool, default_glog: bool, hide: bool) -> Seq<ArgSpecView> {
    seq![
        debug_arg(),
        repo_id_arg(),
        log_style_arg(default_glog),
        panic_fate_arg(),
        config_path_arg(),
        manifold_bucket_arg(hide),
        manifold_prefix_arg(safe_writes, hide),
        shardmap_arg(),
        shard_num_arg(),
        db_address_arg(),
        filenode_shards_arg(),
    ]
}

pub open spec fn myrouter_args() -> Seq<ArgSpecView> {
    seq![cli::usage_arg("myrouter-port"@, "--myrouter-port=[PORT]    'port for local myrouter instance'"@)]
}

/// One of the arguments that override the size of a cache.
pub open spec fn cache_size_arg(flag: Seq<char>, help: Seq<char>, hide: bool) -> ArgSpecView {
    ArgSpecView { hidden: hide, ..cli::long_arg(flag, "SIZE"@, help) }
}

pub open spec fn cachelib_args(hide_advanced_args: bool) -> Seq<ArgSpecView> {
    seq![
        cli::usage_arg("cache-size-gb"@, "--cache-size-gb [SIZE] 'size of the cachelib cache, in GiB'"@),
        cli::usage_arg(
            "use-tupperware-shrinker"@,
            "--use-tupperware-shrinker 'Use the Tupperware-aware cache shrinker to avoid OOM'"@,
        ),
        cli::usage_arg(
            "max-process-size"@,
            "--max-process-size [SIZE] 'process size at which cachelib will shrink, in GiB'"@,
        ),
        cli::usage_arg(
            "min-process-size"@,
            "--min-process-size [SIZE] 'process size at which cachelib will grow back to cache-size-gb, in GiB'"@,
        ),
        cli::usage_arg(
            "with-content-sha1-cache"@,
            "--with-content-sha1-cache  '[Mononoke API Server only] enable content SHA1 cache'"@,
        ),
        cli::usage_arg(
            "do-not-init-cachelib"@,
            "--do-not-init-cachelib 'do not init cachelib (useful for tests)'"@,
        ),
        cache_size_arg("blob-cache-size"@, "override size of the blob cache"@, hide_advanced_args),
        cache_size_arg(
            "presence-cache-size"@,
            "override size of the blob presence cache"@,
            hide_advanced_args,
        ),
        cache_size_arg(
            "changesets-cache-size"@,
            "override size of the changesets cache"@,
            hide_advanced_args,
        ),
        cache_size_arg(
            "filenodes-cache-size"@,
            "override size of the filenodes cache"@,
            hide_advanced_args,
        ),
        cache_size_arg(
            "idmapping-cache-size"@,
            "override size of the bonsai/hg mapping cache"@,
            hide_advanced_args,
        ),
        cache_size_arg(
            "content-sha1-cache-size"@,
            "override size of the content SHA1 cache"@,
            hide_advanced_args,
        ),
    ]
}

pub open spec fn blobstore_arg() -> ArgSpecView {
    ArgSpecView {
        possible_values: seq!["files"@, "rocksdb"@, "manifold"@],
        default_value: Some("manifold"@),
        ..cli::long_arg("blobstore"@, "TYPE"@, "blobstore type"@)
    }
}

pub open spec fn data_dir_arg() -> ArgSpecView {
    cli::long_arg("data-dir"@, "DIR"@, "local data directory (used for local blobstores)"@)
}

/// The arguments of tools that can work on local instances.
pub open spec fn local_args() -> Seq<ArgSpecView> {
    seq![blobstore_arg(), data_dir_arg()]
}

/// All arguments of a tool, in the order they are registered.
pub open spec fn mononoke_args(app: MononokeApp) -> Seq<ArgSpecView> {
    base_args(app.safe_writes, app.default_glog, app.hide_advanced_args) + myrouter_args() + cachelib_args(
        app.hide_advanced_args,
    ) + if app.local_instances {
        local_args()
    } else {
        Seq::empty()
    }
}

/// The names of all arguments a tool can have, in the order they are registered.
pub open spec fn mononoke_arg_names() -> Seq<Seq<char>> {
    seq![
        "debug"@,
        "repo-id"@,
        "log-style"@,
        "panic-fate"@,
        "mononoke-config-path"@,
        "manifold-bucket"@,
        "manifold-prefix"@,
        "mysql-blobstore-shardmap"@,
        "mysql-blobstore-shard-num"@,
        "db-address"@,
        "filenode-shards"@,
        "myrouter-port"@,
        "cache-size-gb"@,
        "use-tupperware-shrinker"@,
        "max-process-size"@,
        "min-process-size"@,
        "with-content-sha1-cache"@,
        "do-not-init-cachelib"@,
        "blob-cache-size"@,
        "presence-cache-size"@,
        "changesets-cache-size"@,
        "filenodes-cache-size"@,
        "idmapping-cache-size"@,
        "content-sha1-cache-size"@,
        "blobstore"@,
        "data-dir"@,
    ]
}

proof fn lemma_mononoke_arg_names_distinct()
    ensures
        forall|i: int, j: int| 0 <= i < j < mononoke_arg_names().len() ==> mononoke_arg_names()[i] != mononoke_arg_names()[j],
        forall|i: int| 0 <= i < mononoke_arg_names().len() ==> mononoke_arg_names()[i].len() > 0 && mononoke_arg_names()[i][0] != '-',
{
    reveal_strlit("debug");
    assert("debug"@.len() == 5 && "debug"@[0] == 'd');
    reveal_strlit("repo-id");
    assert("repo-id"@.len() == 7 && "repo-id"@[0] == 'r');
    reveal_strlit("log-style");
    assert("log-style"@.len() == 9 && "log-style"@[0] == 'l');
    reveal_strlit("panic-fate");
    assert("panic-fate"@.len() == 10 && "panic-fate"@[0] == 'p');
    reveal_strlit("mononoke-config-path");
    assert("mononoke-config-path"@.len() == 20 && "mononoke-config-path"@[0] == 'm');
    reveal_strlit("manifold-bucket");
    assert("manifold-bucket"@.len() == 15 && "manifold-bucket"@[0] == 'm');
    reveal_strlit("manifold-prefix");
    assert("manifold-prefix"@.len() == 15 && "manifold-prefix"@[0] == 'm');
    reveal_strlit("mysql-blobstore-shardmap");
    assert("mysql-blobstore-shardmap"@.len() == 24 && "mysql-blobstore-shardmap"@[0] == 'm');
    reveal_strlit("mysql-blobstore-shard-num");
    assert("mysql-blobstore-shard-num"@.len() == 25 && "mysql-blobstore-shard-num"@[0] == 'm');
    reveal_strlit("db-address");
    assert("db-address"@.len() == 10 && "db-address"@[0] == 'd');
    reveal_strlit("filenode-shards");
    assert("filenode-shards"@.len() == 15 && "filenode-shards"@[0] == 'f');
    reveal_strlit("myrouter-port");
    assert("myrouter-port"@.len() == 13 && "myrouter-port"@[0] == 'm');
    reveal_strlit("cache-size-gb");
    assert("cache-size-gb"@.len() == 13 && "cache-size-gb"@[0] == 'c');
    reveal_strlit("use-tupperware-shrinker");
    assert("use-tupperware-shrinker"@.len() == 23 && "use-tupperware-shrinker"@[0] == 'u');
    reveal_strlit("max-process-size");
    assert("max-process-size"@.len() == 16 && "max-process-size"@[0] == 'm');
    reveal_strlit("min-process-size");
    assert("min-process-size"@.len() == 16 && "min-process-size"@[0] == 'm');
    reveal_strlit("with-content-sha1-cache");
    assert("with-content-sha1-cache"@.len() == 23 && "with-content-sha1-cache"@[0] == 'w');
    reveal_strlit("do-not-init-cachelib");
    assert("do-not-init-cachelib"@.len() == 20 && "do-not-init-cachelib"@[0] == 'd');
    reveal_strlit("blob-cache-size");
    assert("blob-cache-size"@.len() == 15 && "blob-cache-size"@[0] == 'b');
    reveal_strlit("presence-cache-size");
    assert("presence-cache-size"@.len() == 19 && "presence-cache-size"@[0] == 'p');
    reveal_strlit("changesets-cache-size");
    assert("changesets-cache-size"@.len() == 21 && "changesets-cache-size"@[0] == 'c');
    reveal_strlit("filenodes-cache-size");
    assert("filenodes-cache-size"@.len() == 20 && "filenodes-cache-size"@[0] == 'f');
    reveal_strlit("idmapping-cache-size");
    assert("idmapping-cache-size"@.len() == 20 && "idmapping-cache-size"@[0] == 'i');
    reveal_strlit("content-sha1-cache-size");
    assert("content-sha1-cache-size"@.len() == 23 && "content-sha1-cache-size"@[0] == 'c');
    reveal_strlit("blobstore");
    assert("blobstore"@.len() == 9 && "blobstore"@[0] == 'b');
    reveal_strlit("data-dir");
    assert("data-dir"@.len() == 8 && "data-dir"@[0] == 'd');
    assert("log-style"@[0] == 'l' && "blobstore"@[0] == 'b');
    assert("panic-fate"@[0] == 'p' && "db-address"@[0] == 'd');
    assert("mononoke-config-path"@[0] == 'm' && "do-not-init-cachelib"@[0] == 'd');
    assert("mononoke-config-path"@[0] == 'm' && "filenodes-cache-size"@[0] == 'f');
    assert("mononoke-config-path"@[0] == 'm' && "idmapping-cache-size"@[0] == 'i');
    assert("manifold-bucket"@[9] == 'b' && "manifold-prefix"@[9] == 'p');
    assert("manifold-bucket"@[0] == 'm' && "filenode-shards"@[0] == 'f');
    assert("manifold-bucket"@[0] == 'm' && "blob-cache-size"@[0] == 'b');
    assert("manifold-prefix"@[0] == 'm' && "filenode-shards"@[0] == 'f');
    assert("manifold-prefix"@[0] == 'm' && "blob-cache-size"@[0] == 'b');
    assert("filenode-shards"@[0] == 'f' && "blob-cache-size"@[0] == 'b');
    assert("myrouter-port"@[0] == 'm' && "cache-size-gb"@[0] == 'c');
    assert("use-tupperware-shrinker"@[0] == 'u' && "with-content-sha1-cache"@[0] == 'w');
    assert("use-tupperware-shrinker"@[0] == 'u' && "content-sha1-cache-size"@[0] == 'c');
    assert("max-process-size"@[1] == 'a' && "min-process-size"@[1] == 'i');
    assert("with-content-sha1-cache"@[0] == 'w' && "content-sha1-cache-size"@[0] == 'c');
    assert("do-not-init-cachelib"@[0] == 'd' && "filenodes-cache-size"@[0] == 'f');
    assert("do-not-init-cachelib"@[0] == 'd' && "idmapping-cache-size"@[0] == 'i');
    assert("filenodes-cache-size"@[0] == 'f' && "idmapping-cache-size"@[0] == 'i');
}

/// What `clap` makes of the descriptions of a tool's arguments: each can be
/// handed to `clap`, each gives a plain flag or option, and no two share a
/// name, long or short form.
#[verifier::rlimit(100)]
proof fn lemma_tool_arg_views(safe_writes: bool, default_glog: bool, hide: bool)
    ensures
        cli::all_well_formed(base_args(safe_writes, default_glog, hide)),
        cli::all_well_formed(myrouter_args()),
        cli::all_well_formed(cachelib_args(hide)),
        cli::all_well_formed(local_args()),
        cli::all_plain(cli::clap_views(base_args(safe_writes, default_glog, hide))),
        cli::all_plain(cli::clap_views(myrouter_args())),
        cli::all_plain(cli::clap_views(cachelib_args(hide))),
        cli::all_plain(cli::clap_views(local_args())),
        cli::distinct_keys(
            cli::clap_views(base_args(safe_writes, default_glog, hide)) + cli::clap_views(myrouter_args())
                + cli::clap_views(cachelib_args(hide)) + cli::clap_views(local_args()),
        ),
{
    let b = base_args(safe_writes, default_glog, hide);
    let c = cachelib_args(hide);
    let m = b + myrouter_args() + c + local_args();
    let v = cli::clap_views(m);
    let names = mononoke_arg_names();
    cli::lemma_usage_views();
    lemma_mononoke_arg_names_distinct();
    reveal_strlit("l");
    assert("l"@.len() == 1 && "l"@[0] == 'l');
    assert(cli::trim_dashes("l"@) == "l"@);
    assert(m.len() == 26);
    assert forall|i: int| 0 <= i < 26 implies {
        &&& cli::spec_well_formed(#[trigger] m[i])
        &&& cli::clap_view(m[i]).name == names[i]
        &&& cli::clap_view(m[i]).long == Some(names[i])
        &&& cli::is_plain(cli::clap_view(m[i]))
        &&& (cli::clap_view(m[i]).short is Some ==> (i == 0 && cli::clap_view(m[i]).short == Some('d')) || (i == 2
            && cli::clap_view(m[i]).short == Some('l')))
    } by {
        if i == 0 {
            assert(m[0].name == names[0]); cli::lemma_usage_named_view(m[0]);
        } else if i == 1 {
            assert(m[1].name == names[1]); cli::lemma_long_named_view(m[1]);
        } else if i == 2 {
            assert(m[2].name == names[2]); cli::lemma_long_named_view(m[2]);
        } else if i == 3 {
            assert(m[3].name == names[3]); cli::lemma_long_named_view(m[3]);
        } else if i == 4 {
            assert(m[4].name == names[4]); cli::lemma_long_named_view(m[4]);
        } else if i == 5 {
            assert(m[5].name == names[5]); cli::lemma_long_named_view(m[5]);
        } else if i == 6 {
            assert(m[6].name == names[6]); cli::lemma_long_named_view(m[6]);
        } else if i == 7 {
            assert(m[7].name == names[7]); cli::lemma_long_named_view(m[7]);
        } else if i == 8 {
            assert(m[8].name == names[8]); cli::lemma_long_named_view(m[8]);
        } else if i == 9 {
            assert(m[9].name == names[9]); cli::lemma_long_named_view(m[9]);
        } else if i == 10 {
            assert(m[10].name == names[10]); cli::lemma_long_named_view(m[10]);
        } else if i == 11 {
            assert(m[11].name == names[11]); cli::lemma_usage_named_view(m[11]);
        } else if i == 12 {
            assert(m[12].name == names[12]); cli::lemma_usage_named_view(m[12]);
        } else if i == 13 {
            assert(m[13].name == names[13]); cli::lemma_usage_named_view(m[13]);
        } else if i == 14 {
            assert(m[14].name == names[14]); cli::lemma_usage_named_view(m[14]);
        } else if i == 15 {
            assert(m[15].name == names[15]); cli::lemma_usage_named_view(m[15]);
        } else if i == 16 {
            assert(m[16].name == names[16]); cli::lemma_usage_named_view(m[16]);
        } else if i == 17 {
            assert(m[17].name == names[17]); cli::lemma_usage_named_view(m[17]);
        } else if i == 18 {
            assert(m[18].name == names[18]); cli::lemma_long_named_view(m[18]);
        } else if i == 19 {
            assert(m[19].name == names[19]); cli::lemma_long_named_view(m[19]);
        } else if i == 20 {
            assert(m[20].name == names[20]); cli::lemma_long_named_view(m[20]);
        } else if i == 21 {
            assert(m[21].name == names[21]); cli::lemma_long_named_view(m[21]);
        } else if i == 22 {
            assert(m[22].name == names[22]); cli::lemma_long_named_view(m[22]);
        } else if i == 23 {
            assert(m[23].name == names[23]); cli::lemma_long_named_view(m[23]);
        } else if i == 24 {
            assert(m[24].name == names[24]); cli::lemma_long_named_view(m[24]);
        } else if i == 25 {
            assert(m[25].name == names[25]); cli::lemma_long_named_view(m[25]);
        }
    }
    assert forall|i: int| 0 <= i < 26 implies (#[trigger] v[i]) == cli::clap_view(m[i]) by {}
    cli::lemma_distinct_by_name(v);
    cli::lemma_clap_views_append(b + myrouter_args() + c, local_args());
    cli::lemma_clap_views_append(b + myrouter_args(), c);
    cli::lemma_clap_views_append(b, myrouter_args());
    assert forall|i: int| 0 <= i < b.len() implies cli::spec_well_formed(#[trigger] b[i]) && cli::is_plain(
        cli::clap_views(b)[i],
    ) by {
        assert(b[i] == m[i]);
    }
    assert forall|i: int| 0 <= i < 1 implies cli::spec_well_formed(#[trigger] myrouter_args()[i])
        && cli::is_plain(cli::clap_views(myrouter_args())[i]) by {
        assert(myrouter_args()[i] == m[11 + i]);
    }
    assert forall|i: int| 0 <= i < c.len() implies cli::spec_well_formed(#[trigger] c[i]) && cli::is_plain(
        cli::clap_views(c)[i],
    ) by {
        assert(c[i] == m[12 + i]);
    }
    assert forall|i: int| 0 <= i < 2 implies cli::spec_well_formed(#[trigger] local_args()[i])
        && cli::is_plain(cli::clap_views(local_args())[i]) by {
        assert(local_args()[i] == m[24 + i]);
    }
}

// ----- building them ---------------------------------------------------------------------

fn with_default(spec: ArgSpec, value: &'static str) -> (r: ArgSpec)
    ensures
        r@ == (ArgSpecView { default_value: Some(value@), ..spec@ }),
{
    let mut r = spec;
    r.default_value = Some(value);
    r
}

fn base_arg_specs(safe_writes: bool, default_glog: bool, hide: bool) -> (r: Vec<ArgSpec>)
    ensures
        cli::specs_view(r@) == base_args(safe_writes, default_glog, hide),
{
    let mut r: Vec<ArgSpec> = Vec::new();
    r.push(ArgSpec::from_usage("debug", "-d, --debug 'print debug output'"));

    let mut repo_id = with_default(ArgSpec::with_long("repo-id", "ID", "numeric ID of repository"), "0");
    repo_id.alias = Some("repo_id");
    r.push(repo_id);

    let default_log = if default_glog {
        "glog"
    } else {
        "compact"
    };
    let mut log_style = with_default(
        ArgSpec::with_long("log-style", "STYLE", "log style to use for output"),
        default_log,
    );
    log_style.short = Some("l");
    log_style.possible_values = vec!["compact", "glog"];
    assert(cli::strs_view(log_style.possible_values@) =~= seq!["compact"@, "glog"@]);
    r.push(log_style);

    let mut panic_fate = with_default(
        ArgSpec::with_long("panic-fate", "PANIC_FATE", "fate of the process when a panic happens"),
        "abort",
    );
    panic_fate.possible_values = vec!["continue", "exit", "abort"];
    assert(cli::strs_view(panic_fate.possible_values@) =~= seq!["continue"@, "exit"@, "abort"@]);
    r.push(panic_fate);

    r.push(ArgSpec::with_long("mononoke-config-path", "MONONOKE_CONFIG_PATH", "Path to the Mononoke configs"));
    let mut bucket = with_default(ArgSpec::with_long("manifold-bucket", "BUCKET", "manifold bucket"), "mononoke_prod");
    bucket.hidden = hide;
    r.push(bucket);
    let default_manifold_prefix = if safe_writes {
        "mononoke_test"
    } else {
        ""
    };
    let mut prefix = with_default(
        ArgSpec::with_long("manifold-prefix", "PREFIX", "manifold prefix"),
        default_manifold_prefix,
    );
    prefix.hidden = hide;
    r.push(prefix);
    r.push(
        ArgSpec::with_long(
            "mysql-blobstore-shardmap",
            "SHARDMAP",
            "mysql blobstore shardmap, if provided mysql is used instead of manifold",
        ),
    );
    r.push(
        with_default(
            ArgSpec::with_long("mysql-blobstore-shard-num", "SHARD_NUM", "mysql blobstore shard num"),
            "100",
        ),
    );
    r.push(
        with_default(
            ArgSpec::with_long("db-address", "ADDRESS", "database address"),
            "xdb.mononoke_production",
        ),
    );
    r.push(
        ArgSpec::with_long("filenode-shards", "SHARD_COUNT", "number of shards to spread filenodes across"),
    );
    assert(cli::specs_view(r@) =~= base_args(safe_writes, default_glog, hide));
    r
}

/// The argument that gives the port of a local myrouter instance.
pub fn myrouter_arg_specs() -> (r: Vec<ArgSpec>)
    ensures
        cli::specs_view(r@) == myrouter_args(),
{
    let mut r: Vec<ArgSpec> = Vec::new();
    r.push(ArgSpec::from_usage("myrouter-port", "--myrouter-port=[PORT]    'port for local myrouter instance'"));
    assert(cli::specs_view(r@) =~= myrouter_args());
    r
}

fn cache_size_spec(flag: &'static str, help: &'static str, hide: bool) -> (r: ArgSpec)
    ensures
        r@ == cache_size_arg(flag@, help@, hide),
{
    let mut r = ArgSpec::with_long(flag, "SIZE", help);
    r.hidden = hide;
    r
}

/// The arguments that configure cachelib; the ones that override the size
/// of each cache are hidden from help when `hide_advanced_args` is set.
pub fn cachelib_arg_specs(hide_advanced_args: bool) -> (r: Vec<ArgSpec>)
    ensures
        cli::specs_view(r@) == cachelib_args(hide_advanced_args),
{
    let mut r: Vec<ArgSpec> = Vec::new();
    r.push(ArgSpec::from_usage("cache-size-gb", "--cache-size-gb [SIZE] 'size of the cachelib cache, in GiB'"));
    r.push(
        ArgSpec::from_usage(
            "use-tupperware-shrinker",
            "--use-tupperware-shrinker 'Use the Tupperware-aware cache shrinker to avoid OOM'",
        ),
    );
    r.push(
        ArgSpec::from_usage(
            "max-process-size",
            "--max-process-size [SIZE] 'process size at which cachelib will shrink, in GiB'",
        ),
    );
    r.push(
        ArgSpec::from_usage(
            "min-process-size",
            "--min-process-size [SIZE] 'process size at which cachelib will grow back to cache-size-gb, in GiB'",
        ),
    );
    r.push(
        ArgSpec::from_usage(
            "with-content-sha1-cache",
            "--with-content-sha1-cache  '[Mononoke API Server only] enable content SHA1 cache'",
        ),
    );
    r.push(
        ArgSpec::from_usage(
            "do-not-init-cachelib",
            "--do-not-init-cachelib 'do not init cachelib (useful for tests)'",
        ),
    );
    r.push(cache_size_spec("blob-cache-size", "override size of the blob cache", hide_advanced_args));
    r.push(
        cache_size_spec(
            "presence-cache-size",
            "override size of the blob presence cache",
            hide_advanced_args,
        ),
    );
    r.push(
        cache_size_spec(
            "changesets-cache-size",
            "override size of the changesets cache",
            hide_advanced_args,
        ),
    );
    r.push(
        cache_size_spec(
            "filenodes-cache-size",
            "override size of the filenodes cache",
            hide_advanced_args,
        ),
    );
    r.push(
        cache_size_spec(
            "idmapping-cache-size",
            "override size of the bonsai/hg mapping cache",
            hide_advanced_args,
        ),
    );
    r.push(
        cache_size_spec(
            "content-sha1-cache-size",
            "override size of the content SHA1 cache",
            hide_advanced_args,
        ),
    );
    assert(cli::specs_view(r@) =~= cachelib_args(hide_advanced_args));
    r
}

fn local_arg_specs() -> (r: Vec<ArgSpec>)
    ensures
        cli::specs_view(r@) == local_args(),
{
    let mut r: Vec<ArgSpec> = Vec::new();
    let mut blobstore = with_default(ArgSpec::with_long("blobstore", "TYPE", "blobstore type"), "manifold");
    blobstore.possible_values = vec!["files", "rocksdb", "manifold"];
    assert(cli::strs_view(blobstore.possible_values@) =~= seq!["files"@, "rocksdb"@, "manifold"@]);
    r.push(blobstore);
    r.push(ArgSpec::with_long("data-dir", "DIR", "local data directory (used for local blobstores)"));
    assert(cli::specs_view(r@) =~= local_args());
    r
}

proof fn lemma_specs_view_append(a: Seq<ArgSpec>, b: Seq<ArgSpec>)
    ensures
        cli::specs_view(a + b) == cli::specs_view(a) + cli::specs_view(b),
{
    assert(cli::specs_view(a + b) =~= cli::specs_view(a) + cli::specs_view(b));
}

// ----- what holds of them ----------------------------------------------------------------

/// An argument as it stands apart from whether help shows it.
pub open spec fn shown(a: ArgSpecView) -> ArgSpecView {
    ArgSpecView { hidden: false, ..a }
}

/// Hiding the advanced arguments hides them from help only: a tool has the
/// same arguments, in the same order and alike in all else, whether or not
/// it hides them, and it hides none unless it asks to.
pub proof fn lemma_hidden_args_stay_available(a: MononokeApp, b: MononokeApp)
    requires
        a.safe_writes == b.safe_writes,
        a.local_instances == b.local_instances,
        a.default_glog == b.default_glog,
    ensures
        mononoke_args(a).len() == mononoke_args(b).len(),
        forall|i: int|
            0 <= i < mononoke_args(a).len() ==> shown(#[trigger] mononoke_args(a)[i]) == shown(
                mononoke_args(b)[i],
            ),
        forall|i: int|
            0 <= i < mononoke_args(a).len() && (#[trigger] mononoke_args(a)[i]).hidden
                ==> a.hide_advanced_args,
{
    let ca = cachelib_args(a.hide_advanced_args);
    let cb = cachelib_args(b.hide_advanced_args);
    assert forall|i: int| 0 <= i < ca.len() implies shown(#[trigger] ca[i]) == shown(cb[i]) by {}
    assert forall|i: int| 0 <= i < ca.len() && (#[trigger] ca[i]).hidden implies a.hide_advanced_args by {}
    let ba = base_args(a.safe_writes, a.default_glog, a.hide_advanced_args);
    let bb = base_args(b.safe_writes, b.default_glog, b.hide_advanced_args);
    assert forall|i: int| 0 <= i < ba.len() implies shown(#[trigger] ba[i]) == shown(bb[i]) by {}
    assert forall|i: int| 0 <= i < ba.len() && (#[trigger] ba[i]).hidden implies a.hide_advanced_args by {}
    assert(all_visible(myrouter_args()));
    assert(all_visible(local_args()));
}

pub open spec fn all_visible(v: Seq<ArgSpecView>) -> bool {
    forall|i: int| 0 <= i < v.len() ==> !(#[trigger] v[i]).hidden
}

/// Safe writes change one default only: that of the Manifold prefix, which
/// becomes a test prefix. Every other argument stays as it is.
pub proof fn lemma_safe_writes_change_only_prefix(a: MononokeApp, b: MononokeApp)
    requires
        a.hide_advanced_args == b.hide_advanced_args,
        a.local_instances == b.local_instances,
        a.default_glog == b.default_glog,
    ensures
        mononoke_args(a).len() == mononoke_args(b).len(),
        forall|i: int|
            0 <= i < mononoke_args(a).len() && (#[trigger] mononoke_args(a)[i]).name
                != "manifold-prefix"@ ==> mononoke_args(a)[i] == mononoke_args(b)[i],
        mononoke_args(a)[6] == (ArgSpecView {
            default_value: Some(default_manifold_prefix(a.safe_writes)),
            ..mononoke_args(b)[6]
        }),
        mononoke_args(a)[6].name == "manifold-prefix"@,
{
    reveal_strlit("manifold-prefix");
    reveal_strlit("debug");
    reveal_strlit("repo-id");
    reveal_strlit("log-style");
    reveal_strlit("panic-fate");
    reveal_strlit("mononoke-config-path");
    reveal_strlit("manifold-bucket");
    reveal_strlit("mysql-blobstore-shardmap");
    reveal_strlit("mysql-blobstore-shard-num");
    reveal_strlit("db-address");
    reveal_strlit("filenode-shards");
    let ba = base_args(a.safe_writes, a.default_glog, a.hide_advanced_args);
    let bb = base_args(b.safe_writes, b.default_glog, b.hide_advanced_args);
    assert forall|i: int| 0 <= i < ba.len() && (#[trigger] ba[i]).name != "manifold-prefix"@
        implies ba[i] == bb[i] by {
        if i == 6 {
            assert(ba[6].name == "manifold-prefix"@);
        }
    }
}

/// A tool that deals with local instances has, after the arguments of one
/// that does not, the blobstore type and the local data directory.
pub proof fn lemma_local_instances_add_local_args(a: MononokeApp, b: MononokeApp)
    requires
        a.safe_writes == b.safe_writes,
        a.hide_advanced_args == b.hide_advanced_args,
        a.default_glog == b.default_glog,
        a.local_instances,
        !b.local_instances,
    ensures
        mononoke_args(a) == mononoke_args(b) + local_args(),
{
    assert(mononoke_args(b) =~= base_args(b.safe_writes, b.default_glog, b.hide_advanced_args) + myrouter_args()
        + cachelib_args(b.hide_advanced_args));
}

/// What `clap` holds of the arguments that a tool registers: `-d` for debug
/// output; the repository id, with its alias `repo_id` and default 0; the
/// log style, with its short form `-l`, its two styles and the default that
/// the tool asks for; the panic fate, with its three fates and default
/// abort; the Manifold bucket and prefix, with their defaults (a test
/// prefix under safe writes), hidden from help where the tool hides advanced
/// arguments, as are the cache sizes; the shard count and database address
/// with their defaults; and, for a tool that deals with local instances, the
/// blobstore type with its three kinds and default, and the data directory
/// with no default. Only the log style, the panic fate and the blobstore
/// type restrict their values.
pub proof fn lemma_registered_arguments(app: MononokeApp)
    ensures
        ({
            let v = cli::clap_views(mononoke_args(app));
            &&& v.len() == if app.local_instances { 26int } else { 24int }
            &&& v[0].name == "debug"@ && v[0].short == Some('d') && !v[0].takes_value
            &&& v[1].name == "repo-id"@ && v[1].aliases == seq!["repo_id"@] && v[1].default_value == Some("0"@)
            &&& v[2].name == "log-style"@ && v[2].short == Some('l') && v[2].possible_values == seq![
                "compact"@,
                "glog"@,
            ] && v[2].default_value == Some(default_log_style(app.default_glog))
            &&& v[3].name == "panic-fate"@ && v[3].possible_values == seq!["continue"@, "exit"@, "abort"@]
                && v[3].default_value == Some("abort"@)
            &&& v[4].name == "mononoke-config-path"@ && v[4].default_value is None
            &&& v[5].name == "manifold-bucket"@ && v[5].default_value == Some("mononoke_prod"@) && v[5].hidden
                == app.hide_advanced_args
            &&& v[6].name == "manifold-prefix"@ && v[6].default_value == Some(
                default_manifold_prefix(app.safe_writes),
            ) && v[6].hidden == app.hide_advanced_args
            &&& v[7].name == "mysql-blobstore-shardmap"@ && v[7].default_value is None
            &&& v[8].name == "mysql-blobstore-shard-num"@ && v[8].default_value == Some("100"@)
            &&& v[9].name == "db-address"@ && v[9].default_value == Some("xdb.mononoke_production"@)
            &&& v[10].name == "filenode-shards"@ && v[10].default_value is None
            &&& v[11].name == "myrouter-port"@ && v[11].takes_value && v[11].default_value is None
            &&& forall|i: int| 12 <= i < 24 ==> (#[trigger] v[i]).default_value is None && v[i].hidden == (18
                <= i && app.hide_advanced_args)
            &&& app.local_instances ==> v[24].name == "blobstore"@ && v[24].possible_values == seq![
                "files"@,
                "rocksdb"@,
                "manifold"@,
            ] && v[24].default_value == Some("manifold"@) && v[25].name == "data-dir"@ && v[25].takes_value
                && v[25].default_value is None
            &&& forall|i: int| 0 <= i < v.len() ==> (#[trigger] v[i]).index is None && v[i].long == Some(v[i].name)
            &&& forall|i: int|
                0 <= i < v.len() && i != 2 && i != 3 && i != 24 ==> (#[trigger] v[i]).possible_values.len() == 0
        }),
{
    let sw = app.safe_writes;
    let glog = app.default_glog;
    let hide = app.hide_advanced_args;
    let b = base_args(sw, glog, hide);
    let c = cachelib_args(hide);
    let full = b + myrouter_args() + c + local_args();
    let names = mononoke_arg_names();
    lemma_tool_arg_views(sw, glog, hide);
    lemma_mononoke_arg_names_distinct();
    cli::lemma_usage_views();
    reveal(cli::clap_view);
    reveal_strlit("l");
    assert("l"@.len() == 1 && "l"@[0] == 'l');
    assert(cli::trim_dashes("l"@) == "l"@);
    assert(full.len() == 26);
    assert forall|i: int| 0 <= i < 26 implies cli::trim_dashes(#[trigger] names[i]) == names[i] by {}
    assert(mononoke_args(app) =~= if app.local_instances {
        full
    } else {
        full.take(24)
    });
    let v = cli::clap_views(mononoke_args(app));
    assert forall|i: int| 0 <= i < v.len() implies (#[trigger] v[i]) == cli::clap_view(full[i]) by {}
    assert(full[1].name == names[1]);
    assert(full[2].name == names[2]);
    assert(full[3].name == names[3]);
    assert(full[5].name == names[5]);
    assert(full[6].name == names[6]);
    assert(full[8].name == names[8]);
    assert(full[9].name == names[9]);
    assert(Seq::<Seq<char>>::empty() + seq!["compact"@, "glog"@] =~= seq!["compact"@, "glog"@]);
    assert(Seq::<Seq<char>>::empty() + seq!["continue"@, "exit"@, "abort"@] =~= seq!["continue"@, "exit"@, "abort"@]);
    assert(Seq::<Seq<char>>::empty() + seq!["files"@, "rocksdb"@, "manifold"@] =~= seq!["files"@, "rocksdb"@, "manifold"@]);
    assert(Seq::<Seq<char>>::empty().push("repo_id"@) =~= seq!["repo_id"@]);
    assert forall|i: int| 12 <= i < 24 implies (#[trigger] v[i]).default_value is None && v[i].hidden == (18 <= i
        && app.hide_advanced_args) by {
        assert(full[i].name == names[i]);
    }
    assert forall|i: int| 0 <= i < v.len() implies (#[trigger] v[i]).index is None && v[i].long == Some(v[i].name) by {
        assert(full[i].name == names[i]);
        assert(cli::is_plain(cli::clap_views(full)[i])) by {
            cli::lemma_clap_views_append(b + myrouter_args() + c, local_args());
            cli::lemma_clap_views_append(b + myrouter_args(), c);
            cli::lemma_clap_views_append(b, myrouter_args());
        }
    }
    if app.local_instances {
        assert(full[24].name == names[24]);
        assert(full[25].name == names[25]);
    }
    assert forall|i: int| 0 <= i < v.len() && i != 2 && i != 3 && i != 24 implies (#[trigger] v[i]).possible_values.len()
        == 0 by {
        if i == 0 {
            assert(full[0].name == names[0]);
        } else if i == 1 {
            assert(full[1].name == names[1]);
        } else if i == 2 {
            assert(full[2].name == names[2]);
        } else if i == 3 {
            assert(full[3].name == names[3]);
        } else if i == 4 {
            assert(full[4].name == names[4]);
        } else if i == 5 {
            assert(full[5].name == names[5]);
        } else if i == 6 {
            assert(full[6].name == names[6]);
        } else if i == 7 {
            assert(full[7].name == names[7]);
        } else if i == 8 {
            assert(full[8].name == names[8]);
        } else if i == 9 {
            assert(full[9].name == names[9]);
        } else if i == 10 {
            assert(full[10].name == names[10]);
        } else if i == 11 {
            assert(full[11].name == names[11]);
        } else if i == 12 {
            assert(full[12].name == names[12]);
        } else if i == 13 {
            assert(full[13].name == names[13]);
        } else if i == 14 {
            assert(full[14].name == names[14]);
        } else if i == 15 {
            assert(full[15].name == names[15]);
        } else if i == 16 {
            assert(full[16].name == names[16]);
        } else if i == 17 {
            assert(full[17].name == names[17]);
        } else if i == 18 {
            assert(full[18].name == names[18]);
        } else if i == 19 {
            assert(full[19].name == names[19]);
        } else if i == 20 {
            assert(full[20].name == names[20]);
        } else if i == 21 {
            assert(full[21].name == names[21]);
        } else if i == 22 {
            assert(full[22].name == names[22]);
        } else if i == 23 {
            assert(full[23].name == names[23]);
        } else if i == 24 {
            assert(full[24].name == names[24]);
        } else if i == 25 {
            assert(full[25].name == names[25]);
        }
    }
}

/// The logger accepts exactly the panic fates and log styles that the
/// registered arguments allow, with "none" besides as a fate that installs
/// no handler: every fate that names a handler, every allowed value and
/// every default passes the checks, and nothing else does.
pub proof fn lemma_logger_accepts_registered_values(app: MononokeApp, name: Seq<char>)
    ensures
        is_panic_fate_name(name) <==> (name == "none"@ || panic_fate_named(name) is Some),
        is_panic_fate_name(name) <==> (name == "none"@ || panic_fate_arg().possible_values.contains(name)),
        is_log_style_name(name) <==> log_style_arg(app.default_glog).possible_values.contains(name),
        is_panic_fate_name(panic_fate_arg().default_value->0),
        is_log_style_name(log_style_arg(app.default_glog).default_value->0),
        panic_fate_named(panic_fate_arg().default_value->0) == Some(PanicFate::Abort),
{
    reveal_strlit("continue");
    reveal_strlit("exit");
    reveal_strlit("abort");
    assert("continue"@.len() == 8 && "exit"@.len() == 4 && "abort"@.len() == 5);
    let fates = panic_fate_arg().possible_values;
    let styles = log_style_arg(app.default_glog).possible_values;
    assert(fates[0] == "continue"@ && fates[1] == "exit"@ && fates[2] == "abort"@);
    assert(styles[0] == "compact"@ && styles[1] == "glog"@);
    if fates.contains(name) {
        let i = choose|i: int| 0 <= i < fates.len() && fates[i] == name;
        assert(i == 0 || i == 1 || i == 2);
    }
    if styles.contains(name) {
        let i = choose|i: int| 0 <= i < styles.len() && styles[i] == name;
        assert(i == 0 || i == 1);
    }
    if name == "continue"@ {
        assert(fates[0] == name);
    }
    if name == "exit"@ {
        assert(fates[1] == name);
    }
    if name == "abort"@ {
        assert(fates[2] == name);
    }
    if name == "compact"@ {
        assert(styles[0] == name);
    }
    if name == "glog"@ {
        assert(styles[1] == name);
    }
}

impl MononokeApp {
    /// Every argument of the tool, in the order in which it is registered.
    pub fn arg_specs(&self) -> (r: Vec<ArgSpec>)
        ensures
            cli::specs_view(r@) == mononoke_args(*self),
    {
        let mut r = base_arg_specs(self.safe_writes, self.default_glog, self.hide_advanced_args);
        let mut more = myrouter_arg_specs();
        proof {
            lemma_specs_view_append(r@, more@);
        }
        r.append(&mut more);
        let mut more = cachelib_arg_specs(self.hide_advanced_args);
        proof {
            lemma_specs_view_append(r@, more@);
        }
        r.append(&mut more);
        if self.local_instances {
            let mut more = local_arg_specs();
            proof {
                lemma_specs_view_append(r@, more@);
            }
            r.append(&mut more);
        }
        assert(cli::specs_view(r@) =~= mononoke_args(*self));
        r
    }

    /// Create a new Mononoke-based CLI tool. The `safe_writes` option changes some defaults to
    /// avoid production writes. (But it isn't foolproof -- please fix any options that are
    /// missing).
    ///
    /// The application is named `name` and holds, in order, the arguments of
    /// [`MononokeApp::arg_specs`], as flags and options; nothing else.
    pub fn build(self, name: String) -> (r: clap::App<'static, 'static>)
        ensures
            cli::app_view(r) == (cli::ClapAppView {
                name: name@,
                about: None,
                args: cli::clap_views(mononoke_args(self)),
                positionals: Map::empty(),
                subcommands: Seq::empty(),
            }),
    {
        let ghost vb = cli::clap_views(base_args(self.safe_writes, self.default_glog, self.hide_advanced_args));
        let ghost vm = cli::clap_views(myrouter_args());
        let ghost vc = cli::clap_views(cachelib_args(self.hide_advanced_args));
        let ghost vl = cli::clap_views(local_args());
        let ghost all = vb + vm + vc + vl;
        proof {
            lemma_tool_arg_views(self.safe_writes, self.default_glog, self.hide_advanced_args);
        }
        let base = base_arg_specs(self.safe_writes, self.default_glog, self.hide_advanced_args);
        let app0 = clap_app(name);
        let ghost v0 = cli::app_view(app0);
        proof {
            assert(v0.args + vb =~= all.take(11));
            cli::lemma_distinct_prefix(all, 11);
            assert(v0.positionals.dom() =~= Set::<nat>::empty());
            cli::lemma_add_plain(v0, vb);
        }
        let mut app = add_args(app0, &base);
        proof {
            assert(cli::app_view(app).args + vm =~= all.take(12));
            cli::lemma_distinct_prefix(all, 12);
            cli::lemma_add_plain(cli::app_view(app), vm);
        }
        app = add_myrouter_args(app);
        proof {
            assert(cli::app_view(app).args + vc =~= all.take(24));
            cli::lemma_distinct_prefix(all, 24);
            cli::lemma_add_plain(cli::app_view(app), vc);
        }
        app = add_cachelib_args(app, self.hide_advanced_args);
        if self.local_instances {
            let local = local_arg_specs();
            proof {
                assert(cli::app_view(app).args + vl =~= all);
                cli::lemma_add_plain(cli::app_view(app), vl);
            }
            app = add_args(app, &local);
        }
        proof {
            cli::lemma_clap_views_append(base_args(self.safe_writes, self.default_glog, self.hide_advanced_args), myrouter_args());
            cli::lemma_clap_views_append(
                base_args(self.safe_writes, self.default_glog, self.hide_advanced_args) + myrouter_args(),
                cachelib_args(self.hide_advanced_args),
            );
            cli::lemma_clap_views_append(
                base_args(self.safe_writes, self.default_glog, self.hide_advanced_args) + myrouter_args() + cachelib_args(
                    self.hide_advanced_args,
                ),
                local_args(),
            );
            assert(v0.args + vb + vm + vc =~= vb + vm + vc);
            if !self.local_instances {
                assert(mononoke_args(self) =~= base_args(self.safe_writes, self.default_glog, self.hide_advanced_args)
                    + myrouter_args() + cachelib_args(self.hide_advanced_args));
            }
        }
        app
    }
}

/// Adds the cachelib arguments of [`cachelib_arg_specs`] to `app`: they come
/// after its own flags and options, and all else stays as it was. `clap`
/// accepts them only where their names, long forms and short forms are free.
pub fn add_cachelib_args(app: clap::App<'static, 'static>, hide_advanced_args: bool) -> (r: clap::App<
    'static,
    'static,
>)
    requires
        cli::can_add_all(cli::app_view(app), cli::clap_views(cachelib_args(hide_advanced_args))),
    ensures
        cli::app_view(r) == (cli::ClapAppView {
            args: cli::app_view(app).args + cli::clap_views(cachelib_args(hide_advanced_args)),
            ..cli::app_view(app)
        }),
{
    let specs = cachelib_arg_specs(hide_advanced_args);
    proof {
        lemma_tool_arg_views(false, false, hide_advanced_args);
        cli::lemma_with_plain_args(cli::app_view(app), cli::clap_views(cachelib_args(hide_advanced_args)));
    }
    add_args(app, &specs)
}

/// Adds the myrouter argument of [`myrouter_arg_specs`] to `app`: it comes
/// after its own flags and options, and all else stays as it was. `clap`
/// accepts it only where its name and long form are free.
pub fn add_myrouter_args(app: clap::App<'static, 'static>) -> (r: clap::App<'static, 'static>)
    requires
        cli::can_add_all(cli::app_view(app), cli::clap_views(myrouter_args())),
    ensures
        cli::app_view(r) == (cli::ClapAppView {
            args: cli::app_view(app).args + cli::clap_views(myrouter_args()),
            ..cli::app_view(app)
        }),
{
    let specs = myrouter_arg_specs();
    proof {
        lemma_tool_arg_views(false, false, false);
        cli::lemma_with_plain_args(cli::app_view(app), cli::clap_views(myrouter_args()));
    }
    add_args(app, &specs)
}


// ----- reading the values back -----------------------------------------------------------

pub type ArgMap = Map<Seq<char>, Option<Seq<char>>>;

/// The value of `key`, where it is given, read as an unsigned number of at
/// most `max`; `None` where it is given but is not such a number.
pub open spec fn unsigned_value(args: ArgMap, key: Seq<char>, max: int) -> Option<int> {
    text::parse_unsigned(arg_values::value_in(args, key)->0, max)
}

/// The value of `key` is absent or is an unsigned number of at most `max`.
pub open spec fn unsigned_value_ok(args: ArgMap, key: Seq<char>, max: int) -> bool {
    arg_values::value_in(args, key) is Some ==> unsigned_value(args, key, max) is Some
}

/// The value of `key` read as a `usize`, if it is given.
pub fn get_usize_opt(args: &ArgValues, key: &str) -> (r: Option<usize>)
    requires
        arg_values::text_ok(args, key@),
        unsigned_value_ok(args@, key@, usize::MAX as int),
    ensures
        r is Some <==> arg_values::value_in(args@, key@) is Some,
        r matches Some(v) ==> v as int == unsigned_value(args@, key@, usize::MAX as int)->0,
{
    match args.value_of(key) {
        Some(v) => parse_usize(v.as_str()),
        None => None,
    }
}

/// The value of `key` read as a `usize`, or `default` where it is not given.
pub fn get_usize(args: &ArgValues, key: &str, default: usize) -> (r: usize)
    requires
        arg_values::text_ok(args, key@),
        unsigned_value_ok(args@, key@, usize::MAX as int),
    ensures
        r == (if arg_values::value_in(args@, key@) is Some {
            unsigned_value(args@, key@, usize::MAX as int)->0
        } else {
            default as int
        }),
{
    match get_usize_opt(args, key) {
        Some(v) => v,
        None => default,
    }
}

/// The value of `key` read as a `u64`, or `default` where it is not given.
pub fn get_u64(args: &ArgValues, key: &str, default: u64) -> (r: u64)
    requires
        arg_values::text_ok(args, key@),
        unsigned_value_ok(args@, key@, u64::MAX as int),
    ensures
        r == (if arg_values::value_in(args@, key@) is Some {
            unsigned_value(args@, key@, u64::MAX as int)->0
        } else {
            default as int
        }),
{
    match args.value_of(key) {
        Some(v) => match parse_u64(v.as_str()) {
            Some(n) => n,
            None => default,
        },
        None => default,
    }
}

/// The value of `key` read as an `i64`, where it is given: a number of the
/// `i64` range, or `None` where it is given but is not one.
pub open spec fn signed_value(args: ArgMap, key: Seq<char>) -> Option<int> {
    text::parse_signed(arg_values::value_in(args, key)->0, i64::MAX as int)
}

/// The value of `key` read as an `i64`, if it is given.
pub fn get_i64_opt(args: &ArgValues, key: &str) -> (r: Option<i64>)
    requires
        arg_values::text_ok(args, key@),
        arg_values::value_in(args@, key@) is Some ==> signed_value(args@, key@) is Some,
    ensures
        r is Some <==> arg_values::value_in(args@, key@) is Some,
        r matches Some(v) ==> v as int == signed_value(args@, key@)->0,
{
    match args.value_of(key) {
        Some(v) => parse_i64(v.as_str()),
        None => None,
    }
}

/// The port of the local myrouter instance, if one is given.
pub fn parse_myrouter_port(args: &ArgValues) -> (r: Option<u16>)
    requires
        arg_values::text_ok(args, "myrouter-port"@),
        unsigned_value_ok(args@, "myrouter-port"@, u16::MAX as int),
    ensures
        r is Some <==> arg_values::value_in(args@, "myrouter-port"@) is Some,
        r matches Some(v) ==> v as int == unsigned_value(args@, "myrouter-port"@, u16::MAX as int)->0,
{
    match args.value_of("myrouter-port") {
        Some(v) => parse_u16(v.as_str()),
        None => None,
    }
}

/// The repository identity is given and is a `u32`.
pub open spec fn repo_id_given(args: ArgMap) -> bool {
    arg_values::value_in(args, "repo-id"@) is Some && unsigned_value(args, "repo-id"@, u32::MAX as int) is Some
}

/// The repository that the tool works on: the `u32` given as its identity,
/// taken as the `i32` with the same bits.
pub fn get_repo_id(args: &ArgValues) -> (r: RepositoryId)
    requires
        arg_values::text_ok(args, "repo-id"@),
        repo_id_given(args@),
    ensures
        r.0 == (unsigned_value(args@, "repo-id"@, u32::MAX as int)->0 as u32) as i32,
{
    let text = args.value_of("repo-id");
    let id = match text {
        Some(v) => match parse_u32(v.as_str()) {
            Some(n) => n,
            None => 0,
        },
        None => 0,
    };
    RepositoryId::new(id as i32)
}

/// The path to the configuration of the repositories, which must be given.
pub fn config_path(args: &ArgValues) -> (r: Result<String, crate::repo::ConfigError>)
    requires
        arg_values::text_ok(args, "mononoke-config-path"@),
    ensures
        match r {
            Ok(path) => arg_values::value_in(args@, "mononoke-config-path"@) == Some(path@),
            Err(e) => e == crate::repo::ConfigError::MissingConfigPath && arg_values::value_in(
                args@,
                "mononoke-config-path"@,
            ) is None,
        },
{
    match args.value_of("mononoke-config-path") {
        Some(path) => Ok(path),
        None => Err(crate::repo::ConfigError::MissingConfigPath),
    }
}

/// The blobstore arguments can be read: with a MySQL shard map, the number
/// of shards is a `usize` larger than 0; without one, the Manifold bucket
/// and prefix are given (their arguments have defaults).
pub open spec fn blobstore_args_given(args: ArgMap) -> bool {
    if arg_values::value_in(args, "mysql-blobstore-shardmap"@) is Some {
        &&& arg_values::value_in(args, "mysql-blobstore-shard-num"@) is Some
        &&& unsigned_value(args, "mysql-blobstore-shard-num"@, usize::MAX as int) matches Some(n)
        &&& n > 0
    } else {
        &&& arg_values::value_in(args, "manifold-bucket"@) is Some
        &&& arg_values::value_in(args, "manifold-prefix"@) is Some
    }
}

/// The blobstore arguments that are read can be read as text: the shard map,
/// then the number of shards where a shard map is given, or else the
/// Manifold bucket, then the prefix where a bucket is given.
pub open spec fn blobstore_args_text(args: &ArgValues) -> bool {
    &&& arg_values::text_ok(args, "mysql-blobstore-shardmap"@)
    &&& if arg_values::value_in(args@, "mysql-blobstore-shardmap"@) is Some {
        arg_values::text_ok(args, "mysql-blobstore-shard-num"@)
    } else {
        &&& arg_values::text_ok(args, "manifold-bucket"@)
        &&& arg_values::value_in(args@, "manifold-bucket"@) is Some ==> arg_values::text_ok(
            args,
            "manifold-prefix"@,
        )
    }
}

/// The remote blobstore that the arguments name: MySQL where a shard map is
/// given, Manifold otherwise.
pub fn parse_blobstore_args(args: &ArgValues) -> (r: RemoteBlobstoreArgs)
    requires
        blobstore_args_text(args),
        blobstore_args_given(args@),
    ensures
        match arg_values::value_in(args@, "mysql-blobstore-shardmap"@) {
            Some(shardmap) => r matches RemoteBlobstoreArgs::Mysql(m) && m.shardmap@ == shardmap
                && m.shard_num as int == unsigned_value(
                args@,
                "mysql-blobstore-shard-num"@,
                usize::MAX as int,
            )->0 && m.shard_num > 0,
            None => r matches RemoteBlobstoreArgs::Manifold(m) && Some(m.bucket@) == arg_values::value_in(
                args@,
                "manifold-bucket"@,
            ) && Some(m.prefix@) == arg_values::value_in(args@, "manifold-prefix"@),
        },
{
    match args.value_of("mysql-blobstore-shardmap") {
        Some(shardmap) => {
            let shard_num = match get_usize_opt(args, "mysql-blobstore-shard-num") {
                Some(n) => n,
                None => 1,
            };
            RemoteBlobstoreArgs::Mysql(MysqlBlobstoreArgs { shardmap, shard_num })
        },
        None => {
            let bucket = match args.value_of("manifold-bucket") {
                Some(b) => b,
                None => String::new(),
            };
            let prefix = match args.value_of("manifold-prefix") {
                Some(p) => p,
                None => String::new(),
            };
            RemoteBlobstoreArgs::Manifold(ManifoldArgs { bucket, prefix })
        },
    }
}

// ----- logging ---------------------------------------------------------------------------

/// What the process does when a panic happens.
#[derive(Debug, Clone, Copy, PartialEq, Eq, Structural)]
pub enum PanicFate {
    Continue,
    Exit(i32),
    Abort,
}

/// How much a tool logs.
#[derive(Debug, Clone, Copy, PartialEq, Eq, Structural)]
pub enum LogSeverity {
    Debug,
    Info,
}

/// How a tool's log lines look.
#[derive(Debug, Clone, Copy, PartialEq, Eq, Structural)]
pub enum LogStyle {
    Glog,
    Compact,
}

/// How a tool sets up its panic handler and its logger.
#[derive(Debug, Clone, Copy, PartialEq, Eq, Structural)]
pub struct LoggerSettings {
    /// The panic handler to install, if any.
    pub panic_fate: Option<PanicFate>,
    pub severity: LogSeverity,
    pub style: LogStyle,
}

/// The panic fate named `name`; `None` for "none", which installs no handler.
pub open spec fn panic_fate_named(name: Seq<char>) -> Option<PanicFate> {
    if name == "continue"@ {
        Some(PanicFate::Continue)
    } else if name == "exit"@ {
        Some(PanicFate::Exit(101))
    } else if name == "abort"@ {
        Some(PanicFate::Abort)
    } else {
        None
    }
}

pub open spec fn is_panic_fate_name(name: Seq<char>) -> bool {
    name == "none"@ || name == "continue"@ || name == "exit"@ || name == "abort"@
}

pub open spec fn is_log_style_name(name: Seq<char>) -> bool {
    name == "glog"@ || name == "compact"@
}

/// The panic fate and the log style are given, and each is one that a tool knows.
pub open spec fn logger_args_given(args: ArgMap) -> bool {
    &&& arg_values::value_in(args, "panic-fate"@) matches Some(fate) && is_panic_fate_name(fate)
    &&& arg_values::value_in(args, "log-style"@) matches Some(style) && is_log_style_name(style)
}

/// The panic handler to install: the one that the panic fate given names,
/// or none for "none".
pub fn panic_fate(args: &ArgValues) -> (r: Option<PanicFate>)
    requires
        arg_values::text_ok(args, "panic-fate"@),
        arg_values::value_in(args@, "panic-fate"@) matches Some(fate) && is_panic_fate_name(fate),
    ensures
        r == panic_fate_named(arg_values::value_in(args@, "panic-fate"@)->0),
{
    let fate_name = match args.value_of("panic-fate") {
        Some(f) => f,
        None => String::new(),
    };
    if str_eq(fate_name.as_str(), "continue") {
        Some(PanicFate::Continue)
    } else if str_eq(fate_name.as_str(), "exit") {
        Some(PanicFate::Exit(101))
    } else if str_eq(fate_name.as_str(), "abort") {
        Some(PanicFate::Abort)
    } else {
        None
    }
}

/// How to set up the panic handler and the logger: the panic fate given,
/// debug output where asked for, and the log style given.
pub fn logger_settings(args: &ArgValues) -> (r: LoggerSettings)
    requires
        arg_values::text_ok(args, "panic-fate"@),
        arg_values::text_ok(args, "log-style"@),
        logger_args_given(args@),
    ensures
        r.panic_fate == panic_fate_named(arg_values::value_in(args@, "panic-fate"@)->0),
        r.severity == (if args@.contains_key("debug"@) {
            LogSeverity::Debug
        } else {
            LogSeverity::Info
        }),
        r.style == (if arg_values::value_in(args@, "log-style"@)->0 == "glog"@ {
            LogStyle::Glog
        } else {
            LogStyle::Compact
        }),
{
    let panic_fate = panic_fate(args);
    let severity = if args.is_present("debug") {
        LogSeverity::Debug
    } else {
        LogSeverity::Info
    };
    let style_name = match args.value_of("log-style") {
        Some(s) => s,
        None => String::new(),
    };
    let style = if str_eq(style_name.as_str(), "glog") {
        LogStyle::Glog
    } else {
        LogStyle::Compact
    };
    LoggerSettings { panic_fate, severity, style }
}


/// Why the logger cannot be set up from the arguments.
#[derive(Debug, Clone, Copy, PartialEq, Eq, Structural)]
pub enum LoggerArgProblem {
    /// No panic fate is given.
    NoPanicFate,
    /// The panic fate given is not one that a tool knows.
    UnknownPanicFate,
    /// No log style is given.
    NoLogStyle,
    /// The log style given is not one that a tool knows.
    UnknownLogStyle,
}

/// The first thing wrong with the logger arguments, in the order they are read.
pub open spec fn logger_problem(args: ArgMap) -> Option<LoggerArgProblem> {
    let fate = arg_values::value_in(args, "panic-fate"@);
    let style = arg_values::value_in(args, "log-style"@);
    if fate is None {
        Some(LoggerArgProblem::NoPanicFate)
    } else if !is_panic_fate_name(fate->0) {
        Some(LoggerArgProblem::UnknownPanicFate)
    } else if style is None {
        Some(LoggerArgProblem::NoLogStyle)
    } else if !is_log_style_name(style->0) {
        Some(LoggerArgProblem::UnknownLogStyle)
    } else {
        None
    }
}

/// What is wrong with the panic fate, if anything; where nothing is,
/// [`panic_fate`] can be called.
pub fn panic_fate_problem(args: &ArgValues) -> (r: Option<LoggerArgProblem>)
    requires
        arg_values::text_ok(args, "panic-fate"@),
    ensures
        r == (match arg_values::value_in(args@, "panic-fate"@) {
            None => Some(LoggerArgProblem::NoPanicFate),
            Some(f) => if is_panic_fate_name(f) {
                None
            } else {
                Some(LoggerArgProblem::UnknownPanicFate)
            },
        }),
{
    match args.value_of("panic-fate") {
        None => Some(LoggerArgProblem::NoPanicFate),
        Some(fate) => {
            let f = fate.as_str();
            if str_eq(f, "none") || str_eq(f, "continue") || str_eq(f, "exit") || str_eq(f, "abort") {
                None
            } else {
                Some(LoggerArgProblem::UnknownPanicFate)
            }
        },
    }
}

/// What is wrong with the log style, if anything.
pub fn log_style_problem(args: &ArgValues) -> (r: Option<LoggerArgProblem>)
    requires
        arg_values::text_ok(args, "log-style"@),
    ensures
        r == (match arg_values::value_in(args@, "log-style"@) {
            None => Some(LoggerArgProblem::NoLogStyle),
            Some(s) => if is_log_style_name(s) {
                None
            } else {
                Some(LoggerArgProblem::UnknownLogStyle)
            },
        }),
{
    match args.value_of("log-style") {
        None => Some(LoggerArgProblem::NoLogStyle),
        Some(style) => if str_eq(style.as_str(), "glog") || str_eq(style.as_str(), "compact") {
            None
        } else {
            Some(LoggerArgProblem::UnknownLogStyle)
        },
    }
}

/// What is wrong with the logger arguments, if anything; where nothing is,
/// [`logger_settings`] can be called.
pub fn logger_args_problem(args: &ArgValues) -> (r: Option<LoggerArgProblem>)
    requires
        arg_values::text_ok(args, "panic-fate"@),
        arg_values::value_in(args@, "panic-fate"@) matches Some(f) && is_panic_fate_name(f)
            ==> arg_values::text_ok(args, "log-style"@),
    ensures
        r == logger_problem(args@),
        r is None <==> logger_args_given(args@),
{
    match panic_fate_problem(args) {
        Some(p) => Some(p),
        None => log_style_problem(args),
    }
}

/// Why the blobstore arguments cannot be read.
#[derive(Debug, Clone, Copy, PartialEq, Eq, Structural)]
pub enum BlobstoreArgProblem {
    /// A MySQL shard map is given, but no number of shards.
    NoShardNum,
    /// The number of shards is not a `usize` larger than 0.
    BadShardNum,
    /// No Manifold bucket is given.
    NoManifoldBucket,
    /// No Manifold prefix is given.
    NoManifoldPrefix,
}

/// The first thing wrong with the blobstore arguments, in the order they are read.
pub open spec fn blobstore_problem(args: ArgMap) -> Option<BlobstoreArgProblem> {
    if arg_values::value_in(args, "mysql-blobstore-shardmap"@) is Some {
        if arg_values::value_in(args, "mysql-blobstore-shard-num"@) is None {
            Some(BlobstoreArgProblem::NoShardNum)
        } else if !(unsigned_value(args, "mysql-blobstore-shard-num"@, usize::MAX as int) matches Some(
            n,
        ) && n > 0) {
            Some(BlobstoreArgProblem::BadShardNum)
        } else {
            None
        }
    } else if arg_values::value_in(args, "manifold-bucket"@) is None {
        Some(BlobstoreArgProblem::NoManifoldBucket)
    } else if arg_values::value_in(args, "manifold-prefix"@) is None {
        Some(BlobstoreArgProblem::NoManifoldPrefix)
    } else {
        None
    }
}

/// What is wrong with the blobstore arguments, if anything; where nothing
/// is, [`parse_blobstore_args`] can be called.
pub fn blobstore_args_problem(args: &ArgValues) -> (r: Option<BlobstoreArgProblem>)
    requires
        blobstore_args_text(args),
    ensures
        r == blobstore_problem(args@),
        r is None <==> blobstore_args_given(args@),
{
    if args.value_of("mysql-blobstore-shardmap").is_some() {
        match args.value_of("mysql-blobstore-shard-num") {
            None => Some(BlobstoreArgProblem::NoShardNum),
            Some(v) => match parse_usize(v.as_str()) {
                Some(n) => if n > 0 {
                    None
                } else {
                    Some(BlobstoreArgProblem::BadShardNum)
                },
                None => Some(BlobstoreArgProblem::BadShardNum),
            },
        }
    } else if args.value_of("manifold-bucket").is_none() {
        Some(BlobstoreArgProblem::NoManifoldBucket)
    } else if args.value_of("manifold-prefix").is_none() {
        Some(BlobstoreArgProblem::NoManifoldPrefix)
    } else {
        None
    }
}

} // verus!
