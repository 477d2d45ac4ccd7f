use mononoke_cmdlib::arg_values::ArgValues;
use mononoke_cmdlib::args::{
    add_cachelib_args, add_myrouter_args, cachelib_arg_specs, config_path, get_i64_opt,
    get_repo_id, get_u64, get_usize, get_usize_opt, logger_settings, myrouter_arg_specs,
    parse_blobstore_args, parse_myrouter_port, LogSeverity, LogStyle, MononokeApp, PanicFate,
};
use mononoke_cmdlib::cli::{read_args, ArgSpec};
use mononoke_cmdlib::repo::{ConfigError, RemoteBlobstoreArgs, RepositoryId};

fn app(safe_writes: bool, hide: bool, local: bool, glog: bool) -> MononokeApp {
    MononokeApp {
        safe_writes,
        hide_advanced_args: hide,
        local_instances: local,
        default_glog: glog,
    }
}

fn find<'a>(specs: &'a [ArgSpec], name: &str) -> &'a ArgSpec {
    specs.iter().find(|s| s.name == name).expect("argument is registered")
}

fn values(pairs: &[(&str, Option<&str>)]) -> ArgValues {
    let mut args = ArgValues::new();
    for (name, value) in pairs {
        args.insert(name.to_string(), value.map(|v| v.to_string()));
    }
    args
}

#[test]
fn argument_list_shape() {
    let specs = app(false, false, false, false).arg_specs();
    assert_eq!(specs.len(), 11 + 1 + 12);
    let local = app(false, false, true, false).arg_specs();
    assert_eq!(local.len(), 11 + 1 + 12 + 2);
    assert_eq!(local[24].name, "blobstore");
    assert_eq!(local[24].default_value, Some("manifold"));
    assert_eq!(local[24].possible_values, vec!["files", "rocksdb", "manifold"]);
    assert_eq!(local[25].name, "data-dir");
    assert_eq!(specs[0].usage, Some("-d, --debug 'print debug output'"));
}

#[test]
fn defaults() {
    let specs = app(false, false, false, false).arg_specs();
    assert_eq!(find(&specs, "repo-id").default_value, Some("0"));
    assert_eq!(find(&specs, "repo-id").alias, Some("repo_id"));
    assert_eq!(find(&specs, "log-style").default_value, Some("compact"));
    assert_eq!(find(&specs, "log-style").short, Some("l"));
    assert_eq!(find(&specs, "panic-fate").default_value, Some("abort"));
    assert_eq!(find(&specs, "manifold-bucket").default_value, Some("mononoke_prod"));
    assert_eq!(find(&specs, "manifold-prefix").default_value, Some(""));
    assert_eq!(find(&specs, "mysql-blobstore-shard-num").default_value, Some("100"));
    assert_eq!(find(&specs, "db-address").default_value, Some("xdb.mononoke_production"));
    assert_eq!(
        find(&specs, "mysql-blobstore-shardmap").help,
        Some("mysql blobstore shardmap, if provided mysql is used instead of manifold")
    );
    let glog = app(false, false, false, true).arg_specs();
    assert_eq!(find(&glog, "log-style").default_value, Some("glog"));
}

#[test]
fn safe_writes_use_test_prefix() {
    let safe = app(true, false, false, false).arg_specs();
    assert_eq!(find(&safe, "manifold-prefix").default_value, Some("mononoke_test"));
    let unsafe_specs = app(false, false, false, false).arg_specs();
    for (a, b) in safe.iter().zip(unsafe_specs.iter()) {
        if a.name != "manifold-prefix" {
            assert_eq!(a.default_value, b.default_value);
        }
    }
}

#[test]
fn hidden_arguments_stay_registered() {
    let hidden = app(false, true, false, false).arg_specs();
    let shown = app(false, false, false, false).arg_specs();
    assert_eq!(hidden.len(), shown.len());
    let hidden_names: Vec<_> = hidden.iter().filter(|s| s.hidden).map(|s| s.name).collect();
    assert_eq!(
        hidden_names,
        vec![
            "manifold-bucket",
            "manifold-prefix",
            "blob-cache-size",
            "presence-cache-size",
            "changesets-cache-size",
            "filenodes-cache-size",
            "idmapping-cache-size",
            "content-sha1-cache-size"
        ]
    );
    assert!(shown.iter().all(|s| !s.hidden));
    for (a, b) in hidden.iter().zip(shown.iter()) {
        assert_eq!(a.name, b.name);
    }
}

#[test]
fn cachelib_and_myrouter_groups() {
    let cache = cachelib_arg_specs(true);
    assert_eq!(cache.len(), 12);
    assert_eq!(cache[0].name, "cache-size-gb");
    assert_eq!(cache[6].value_name, Some("SIZE"));
    assert_eq!(cache[6].help, Some("override size of the blob cache"));
    let myrouter = myrouter_arg_specs();
    assert_eq!(myrouter.len(), 1);
    assert_eq!(myrouter[0].name, "myrouter-port");
}

#[test]
fn built_application_parses_command_lines() {
    let tool = app(true, true, true, false);
    let specs = tool.arg_specs();
    let matches = tool
        .build("tool".to_string())
        .get_matches_from_safe(vec![
            "tool",
            "--repo-id",
            "7",
            "-d",
            "--myrouter-port",
            "1234",
            "--blob-cache-size",
            "99",
            "--do-not-init-cachelib",
        ])
        .expect("command line parses");
    let args = read_args(&matches, &specs);
    assert_eq!(get_repo_id(&args), RepositoryId(7));
    assert!(args.is_present("debug"));
    assert_eq!(parse_myrouter_port(&args), Some(1234));
    assert_eq!(get_usize(&args, "blob-cache-size", 1), 99);
    assert!(args.is_present("do-not-init-cachelib"));
    assert_eq!(args.value_of("manifold-prefix"), Some("mononoke_test".to_string()));
    assert_eq!(args.value_of("blobstore"), Some("manifold".to_string()));
    assert_eq!(args.value_of("log-style"), Some("compact".to_string()));
    assert!(!args.is_present("data-dir"));
}

#[test]
fn built_application_rejects_unknown_values() {
    let tool = app(false, false, false, false);
    let parsed = tool
        .build("tool".to_string())
        .get_matches_from_safe(vec!["tool", "--log-style", "fancy"]);
    assert!(parsed.is_err());
    let tool = app(false, false, false, false);
    let parsed = tool
        .build("tool".to_string())
        .get_matches_from_safe(vec!["tool", "--blobstore", "files"]);
    assert!(parsed.is_err());
}

#[test]
fn added_groups_parse() {
    let app = add_cachelib_args(add_myrouter_args(clap::App::new("x")), false);
    let matches = app
        .get_matches_from_safe(vec!["x", "--cache-size-gb", "3", "--myrouter-port", "9"])
        .expect("parses");
    let mut specs = myrouter_arg_specs();
    specs.extend(cachelib_arg_specs(false));
    let args = read_args(&matches, &specs);
    assert_eq!(args.value_of("cache-size-gb"), Some("3".to_string()));
    assert_eq!(args.value_of("myrouter-port"), Some("9".to_string()));
}

#[test]
fn numbers_from_values() {
    let args = values(&[("size", Some("12")), ("big", Some("18446744073709551615")), ("neg", Some("-3"))]);
    assert_eq!(get_usize_opt(&args, "size"), Some(12));
    assert_eq!(get_usize_opt(&args, "none"), None);
    assert_eq!(get_usize(&args, "none", 5), 5);
    assert_eq!(get_u64(&args, "big", 0), u64::MAX);
    assert_eq!(get_u64(&args, "none", 8), 8);
    assert_eq!(get_i64_opt(&args, "neg"), Some(-3));
    assert_eq!(get_i64_opt(&args, "none"), None);
}

#[test]
fn repo_id_keeps_the_bits() {
    let args = values(&[("repo-id", Some("4294967295"))]);
    assert_eq!(get_repo_id(&args), RepositoryId(-1));
    let args = values(&[("repo-id", Some("0"))]);
    assert_eq!(get_repo_id(&args).id(), 0);
}

#[test]
fn myrouter_port() {
    assert_eq!(parse_myrouter_port(&values(&[])), None);
    assert_eq!(parse_myrouter_port(&values(&[("myrouter-port", Some("65535"))])), Some(65535));
}

#[test]
fn config_path_must_be_given() {
    assert_eq!(
        config_path(&values(&[("mononoke-config-path", Some("/etc/mononoke"))])),
        Ok("/etc/mononoke".to_string())
    );
    assert_eq!(config_path(&values(&[])), Err(ConfigError::MissingConfigPath));
}

#[test]
fn blobstore_args() {
    let manifold = values(&[
        ("manifold-bucket", Some("b")),
        ("manifold-prefix", Some("p")),
        ("mysql-blobstore-shard-num", Some("100")),
    ]);
    match parse_blobstore_args(&manifold) {
        RemoteBlobstoreArgs::Manifold(m) => {
            assert_eq!(m.bucket, "b");
            assert_eq!(m.prefix, "p");
        }
        RemoteBlobstoreArgs::Mysql(_) => panic!("expected manifold"),
    }
    let mysql = values(&[
        ("manifold-bucket", Some("b")),
        ("manifold-prefix", Some("p")),
        ("mysql-blobstore-shardmap", Some("shards")),
        ("mysql-blobstore-shard-num", Some("12")),
    ]);
    match parse_blobstore_args(&mysql) {
        RemoteBlobstoreArgs::Mysql(m) => {
            assert_eq!(m.shardmap, "shards");
            assert_eq!(m.shard_num, 12);
        }
        RemoteBlobstoreArgs::Manifold(_) => panic!("expected mysql"),
    }
}

#[test]
fn logger_from_arguments() {
    let args = values(&[("panic-fate", Some("abort")), ("log-style", Some("compact"))]);
    let settings = logger_settings(&args);
    assert_eq!(settings.panic_fate, Some(PanicFate::Abort));
    assert_eq!(settings.severity, LogSeverity::Info);
    assert_eq!(settings.style, LogStyle::Compact);

    let args = values(&[("panic-fate", Some("exit")), ("log-style", Some("glog")), ("debug", None)]);
    let settings = logger_settings(&args);
    assert_eq!(settings.panic_fate, Some(PanicFate::Exit(101)));
    assert_eq!(settings.severity, LogSeverity::Debug);
    assert_eq!(settings.style, LogStyle::Glog);

    let args = values(&[("panic-fate", Some("continue")), ("log-style", Some("glog"))]);
    assert_eq!(logger_settings(&args).panic_fate, Some(PanicFate::Continue));
    let args = values(&[("panic-fate", Some("none")), ("log-style", Some("glog"))]);
    assert_eq!(logger_settings(&args).panic_fate, None);
}
