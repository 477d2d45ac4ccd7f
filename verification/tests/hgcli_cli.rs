use mononoke_cmdlib::cli::read_args;
use mononoke_cmdlib::hgcli::{hgcli_app, hgcli_arg_specs, serve_arg_specs};

#[test]
fn hgcli_argument_lists() {
    let top = hgcli_arg_specs();
    let names: Vec<_> = top.iter().map(|s| s.name).collect();
    assert_eq!(names, vec!["repository", "query-string", "remote-proxy", "scuba-table"]);
    let serve = serve_arg_specs();
    assert_eq!(serve.len(), 13);
    assert_eq!(serve[4].name, "port");
    assert_eq!(serve[4].default_value, Some("8000"));
    assert_eq!(serve[11].possible_values, vec!["pipe", "unix"]);
}

#[test]
fn serve_subcommand_parses() {
    let matches = hgcli_app()
        .get_matches_from_safe(vec!["hgcli", "-R", "repo", "serve", "--mononoke-path", "/sock"])
        .expect("parses");
    let top = read_args(&matches, &hgcli_arg_specs());
    assert_eq!(top.value_of("repository"), Some("repo".to_string()));
    let serve = matches.subcommand_matches("serve").expect("serve subcommand");
    let serve = read_args(serve, &serve_arg_specs());
    assert_eq!(serve.value_of("mononoke-path"), Some("/sock".to_string()));
    assert_eq!(serve.value_of("port"), Some("8000".to_string()));
    assert!(!serve.is_present("stdio"));
}

#[test]
fn cmdserver_mode_is_checked() {
    let parsed = hgcli_app().get_matches_from_safe(vec![
        "hgcli", "-R", "r", "serve", "--mononoke-path", "/s", "--cmdserver", "tcp",
    ]);
    assert!(parsed.is_err());
}

#[test]
fn only_listed_arguments_are_read() {
    let matches = hgcli_app()
        .get_matches_from_safe(vec!["hgcli", "-R", "repo", "--remote-proxy", "serve", "--mononoke-path", "/s"])
        .expect("parses");
    let mut specs = hgcli_arg_specs();
    specs.truncate(1);
    let top = read_args(&matches, &specs);
    assert_eq!(top.value_of("repository"), Some("repo".to_string()));
    assert!(!top.is_present("remote-proxy"));
    let all = read_args(&matches, &hgcli_arg_specs());
    assert!(all.is_present("remote-proxy"));
    assert_eq!(all.value_of("remote-proxy"), None);
}
