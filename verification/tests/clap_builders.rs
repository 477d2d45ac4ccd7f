use clap::{App, ArgSettings};
use mononoke_cmdlib::args::{add_cachelib_args, add_myrouter_args, MononokeApp};
use mononoke_cmdlib::cli::{read_args, to_clap_arg, ArgSpec};
use mononoke_cmdlib::hgcli::{hgcli_app, hgcli_arg_specs, serve_arg_specs};

fn tool(safe_writes: bool, hide: bool, local: bool, glog: bool) -> MononokeApp {
    MononokeApp {
        safe_writes,
        hide_advanced_args: hide,
        local_instances: local,
        default_glog: glog,
    }
}

/// Flags and options of an application, in the order they were added.
fn registered(app: &App<'static, 'static>) -> Vec<(&'static str, bool)> {
    let mut all: Vec<(usize, &'static str, bool)> = Vec::new();
    for f in &app.p.flags {
        all.push((f.s.unified_ord, f.b.name, f.b.is_set(ArgSettings::Hidden)));
    }
    for o in &app.p.opts {
        all.push((o.s.unified_ord, o.b.name, o.b.is_set(ArgSettings::Hidden)));
    }
    all.sort();
    all.into_iter().map(|(_, n, h)| (n, h)).collect()
}

#[test]
fn build_registers_the_described_arguments_in_order() {
    for &(safe, hide, local, glog) in &[
        (false, false, false, false),
        (true, true, true, true),
        (false, true, false, true),
        (true, false, true, false),
    ] {
        let t = tool(safe, hide, local, glog);
        let specs = t.arg_specs();
        let app = t.build("tool".to_string());
        let got = registered(&app);
        let want: Vec<(&'static str, bool)> = specs.iter().map(|s| (s.name, s.hidden)).collect();
        assert_eq!(got, want);
        assert!(app.p.positionals.is_empty());
        assert!(app.p.subcommands.is_empty());
        assert_eq!(app.p.meta.name, "tool");
    }
}

#[test]
fn build_defaults_after_a_parse() {
    let m = tool(true, false, false, false).build("tool".to_string()).get_matches_from(vec!["tool"]);
    assert_eq!(m.value_of("manifold-prefix"), Some("mononoke_test"));
    assert_eq!(m.value_of("manifold-bucket"), Some("mononoke_prod"));
    assert_eq!(m.value_of("log-style"), Some("compact"));
    assert_eq!(m.value_of("repo-id"), Some("0"));
    assert_eq!(m.value_of("panic-fate"), Some("abort"));
    assert_eq!(m.value_of("mysql-blobstore-shard-num"), Some("100"));
    assert_eq!(m.value_of("db-address"), Some("xdb.mononoke_production"));
    assert!(!m.is_present("debug"));
    for k in &["mononoke-config-path", "mysql-blobstore-shardmap", "filenode-shards", "myrouter-port", "cache-size-gb"] {
        assert_eq!(m.value_of(k), None);
    }
    let m = tool(false, false, false, true).build("tool".to_string()).get_matches_from(vec!["tool"]);
    assert_eq!(m.value_of("manifold-prefix"), Some(""));
    assert_eq!(m.value_of("log-style"), Some("glog"));
    let m = tool(false, false, false, false)
        .build("tool".to_string())
        .get_matches_from(vec!["tool", "-l", "glog", "--repo_id", "5", "--manifold-prefix", "p"]);
    assert_eq!(m.value_of("log-style"), Some("glog"));
    assert_eq!(m.value_of("repo-id"), Some("5"));
    assert_eq!(m.value_of("manifold-prefix"), Some("p"));
}

#[test]
fn build_checks_values() {
    let a = || tool(false, false, false, false).build("tool".to_string());
    assert!(a().get_matches_from_safe(vec!["tool", "--panic-fate", "none"]).is_err());
    assert!(a().get_matches_from_safe(vec!["tool", "-l", "json"]).is_err());
    assert_eq!(
        a().get_matches_from_safe(vec!["tool", "--panic-fate", "exit"]).unwrap().value_of("panic-fate"),
        Some("exit")
    );
    assert!(a().get_matches_from_safe(vec!["tool", "--data-dir", "d"]).is_err());
    let l = || tool(false, false, true, false).build("tool".to_string());
    assert_eq!(l().get_matches_from(vec!["tool"]).value_of("blobstore"), Some("manifold"));
    assert!(l().get_matches_from_safe(vec!["tool", "--blobstore", "s3"]).is_err());
    assert_eq!(l().get_matches_from(vec!["tool", "--data-dir", "d"]).value_of("data-dir"), Some("d"));
}

#[test]
fn hidden_manifold_arguments_still_parse() {
    let m = tool(false, true, false, false)
        .build("tool".to_string())
        .get_matches_from(vec!["tool", "--manifold-bucket", "b", "--blob-cache-size", "5"]);
    assert_eq!(m.value_of("manifold-bucket"), Some("b"));
    assert_eq!(m.value_of("blob-cache-size"), Some("5"));
}

#[test]
fn add_groups_append_after_existing_arguments() {
    let app = add_cachelib_args(App::new("t"), true);
    let names: Vec<_> = registered(&app);
    assert_eq!(names.len(), 12);
    assert_eq!(names[0], ("cache-size-gb", false));
    assert_eq!(names[6], ("blob-cache-size", true));
    let app = add_myrouter_args(app);
    let names = registered(&app);
    assert_eq!(names[12], ("myrouter-port", false));
    let a = || add_cachelib_args(App::new("t"), true);
    assert_eq!(a().get_matches_from(vec!["t", "--blob-cache-size", "5"]).value_of("blob-cache-size"), Some("5"));
    assert_eq!(a().get_matches_from(vec!["t"]).value_of("blob-cache-size"), None);
    assert!(!a().get_matches_from(vec!["t"]).is_present("do-not-init-cachelib"));
}

/// What the usage parser is stated to make of each usage string.
fn expected(usage: &str) -> (&'static str, Option<char>, &'static str, bool, bool, Option<&'static str>) {
    match usage {
        "-d, --debug 'print debug output'" => ("debug", Some('d'), "print debug output", false, false, None),
        "--myrouter-port=[PORT]    'port for local myrouter instance'" => ("myrouter-port", None, "port for local myrouter instance", true, false, Some("PORT")),
        "--cache-size-gb [SIZE] 'size of the cachelib cache, in GiB'" => ("cache-size-gb", None, "size of the cachelib cache, in GiB", true, false, Some("SIZE")),
        "--use-tupperware-shrinker 'Use the Tupperware-aware cache shrinker to avoid OOM'" => ("use-tupperware-shrinker", None, "Use the Tupperware-aware cache shrinker to avoid OOM", false, false, None),
        "--max-process-size [SIZE] 'process size at which cachelib will shrink, in GiB'" => ("max-process-size", None, "process size at which cachelib will shrink, in GiB", true, false, Some("SIZE")),
        "--min-process-size [SIZE] 'process size at which cachelib will grow back to cache-size-gb, in GiB'" => ("min-process-size", None, "process size at which cachelib will grow back to cache-size-gb, in GiB", true, false, Some("SIZE")),
        "--with-content-sha1-cache  '[Mononoke API Server only] enable content SHA1 cache'" => ("with-content-sha1-cache", None, "[Mononoke API Server only] enable content SHA1 cache", false, false, None),
        "--do-not-init-cachelib 'do not init cachelib (useful for tests)'" => ("do-not-init-cachelib", None, "do not init cachelib (useful for tests)", false, false, None),
        "-R, --repository=<REPO> 'repository name'" => ("repository", Some('R'), "repository name", true, true, Some("REPO")),
        "--query-string [QUERY_STRING] 'original query string passed to repository path'" => ("query-string", None, "original query string passed to repository path", true, false, Some("QUERY_STRING")),
        "--remote-proxy 'hgcli is run as remote proxy, not locally'" => ("remote-proxy", None, "hgcli is run as remote proxy, not locally", false, false, None),
        "--scuba-table [SCUBA_TABLE] 'name of scuba table to log to'" => ("scuba-table", None, "name of scuba table to log to", true, false, Some("SCUBA_TABLE")),
        "--mononoke-path <PATH> 'path to connect to mononoke server'" => ("mononoke-path", None, "path to connect to mononoke server", true, true, Some("PATH")),
        "-A, --accesslog [FILE] 'name of access log file'" => ("accesslog", Some('A'), "name of access log file", true, false, Some("FILE")),
        "-d, --daemon 'run server in background'" => ("daemon", Some('d'), "run server in background", false, false, None),
        "-E, --errorlog [FILE] 'name of error log file to write to'" => ("errorlog", Some('E'), "name of error log file to write to", true, false, Some("FILE")),
        "-p, --port <PORT> 'port to listen on'" => ("port", Some('p'), "port to listen on", true, true, Some("PORT")),
        "-a, --address [ADDR] 'address to listen on'" => ("address", Some('a'), "address to listen on", true, false, Some("ADDR")),
        "--cert [CERT]  'path to the certificate file'" => ("cert", None, "path to the certificate file", true, false, Some("CERT")),
        "--ca-pem [PEM] 'path to the pem file'" => ("ca-pem", None, "path to the pem file", true, false, Some("PEM")),
        "--private-key [KEY] 'path to the private key'" => ("private-key", None, "path to the private key", true, false, Some("KEY")),
        "--common-name [CN] 'expected SSL common name of the server see https://www.ssl.com/faqs/common-name/'" => ("common-name", None, "expected SSL common name of the server see https://www.ssl.com/faqs/common-name/", true, false, Some("CN")),
        "--stdio 'for remote clients'" => ("stdio", None, "for remote clients", false, false, None),
        "--cmdserver [MODE] 'for remote clients'" => ("cmdserver", None, "for remote clients", true, false, Some("MODE")),
        "--mock-username [USERNAME] 'use only in tests, send this username instead of the currently logged in'" => ("mock-username", None, "use only in tests, send this username instead of the currently logged in", true, false, Some("USERNAME")),
        _ => ("", None, "", false, false, None),
    }
}

#[test]
fn usage_strings_parse_as_stated() {
    let mut specs: Vec<ArgSpec> = Vec::new();
    specs.extend(tool(false, false, true, false).arg_specs());
    specs.extend(hgcli_arg_specs());
    specs.extend(serve_arg_specs());
    let mut checked = 0;
    for spec in &specs {
        if let Some(u) = spec.usage {
            let arg = to_clap_arg(spec);
            assert_eq!(arg.b.name, spec.name);
            assert_eq!(arg.s.long, Some(spec.name));
            let (name, short, help, takes_value, required, value_name) = expected(u);
            let value_names: Vec<&str> =
                arg.v.val_names.as_ref().map(|m| m.values().cloned().collect()).unwrap_or_default();
            assert_eq!(value_names, value_name.into_iter().collect::<Vec<_>>());
            if !name.is_empty() {
                assert_eq!(arg.b.name, name);
                assert_eq!(arg.s.short, short);
                assert_eq!(arg.b.help, Some(help));
                assert_eq!(arg.is_set(ArgSettings::TakesValue), takes_value);
                assert_eq!(arg.is_set(ArgSettings::Required), required);
                checked += 1;
            }
        }
    }
    assert_eq!(checked, 25);
}

#[test]
fn hgcli_application_shape() {
    let app = hgcli_app();
    assert_eq!(app.p.meta.name, "Mononoke CLI");
    assert_eq!(app.p.meta.about, Some("Provide minimally compatible CLI to Mononoke server"));
    let top: Vec<_> = registered(&app).into_iter().map(|(n, _)| n).collect();
    assert_eq!(top, vec!["repository", "query-string", "remote-proxy", "scuba-table"]);
    assert_eq!(app.p.subcommands.len(), 1);
    let serve = &app.p.subcommands[0];
    assert_eq!(serve.p.meta.name, "serve");
    assert_eq!(serve.p.meta.about, Some("start server"));
    let names: Vec<_> = registered(serve).into_iter().map(|(n, _)| n).collect();
    let want: Vec<_> = serve_arg_specs().iter().map(|s| s.name).collect();
    assert_eq!(names, want);
}

#[test]
fn values_that_are_not_text_are_marked() {
    let mut args = mononoke_cmdlib::arg_values::ArgValues::new();
    args.insert("a".to_string(), Some("x".to_string()));
    args.insert_not_text("b".to_string());
    assert!(args.is_text("a"));
    assert!(!args.is_text("b"));
    assert!(args.is_present("b"));
    assert!(args.is_text("c"));
    args.insert("b".to_string(), Some("y".to_string()));
    assert!(args.is_text("b"));
    assert_eq!(args.value_of("b"), Some("y".to_string()));
    let m = tool(false, false, false, false).build("tool".to_string()).get_matches_from(vec!["tool", "-d"]);
    let read = read_args(&m, &tool(false, false, false, false).arg_specs());
    assert!(read.is_text("debug"));
    assert!(read.is_text("log-style"));
}
