use mononoke_cmdlib::arg_values::ArgValues;

#[test]
fn empty_command_line() {
    let args = ArgValues::new();
    assert!(!args.is_present("debug"));
    assert_eq!(args.value_of("repo-id"), None);
}

#[test]
fn read_gives_back_what_was_recorded() {
    let mut args = ArgValues::new();
    args.insert("repo-id".to_string(), Some("5".to_string()));
    args.insert("debug".to_string(), None);
    assert!(args.is_present("repo-id"));
    assert!(args.is_present("debug"));
    assert!(!args.is_present("repo"));
    assert_eq!(args.value_of("repo-id"), Some("5".to_string()));
    assert_eq!(args.value_of("debug"), None);
}

#[test]
fn later_record_replaces_earlier() {
    let mut args = ArgValues::new();
    args.insert("repo-id".to_string(), Some("5".to_string()));
    args.insert("repo-id".to_string(), Some("6".to_string()));
    assert_eq!(args.value_of("repo-id"), Some("6".to_string()));
    args.insert("repo-id".to_string(), None);
    assert!(args.is_present("repo-id"));
    assert_eq!(args.value_of("repo-id"), None);
}
