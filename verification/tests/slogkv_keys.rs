use mononoke_cmdlib::slogkv::SlogKVErrorKey;

#[test]
fn key_names() {
    assert_eq!(SlogKVErrorKey::Error.to_str(), "error");
    assert_eq!(SlogKVErrorKey::RootCause.to_str(), "root_cause");
    assert_eq!(SlogKVErrorKey::Backtrace.to_str(), "backtrace");
    assert_eq!(SlogKVErrorKey::Cause.to_str(), "cause");
}

#[test]
fn key_from_name() {
    assert_eq!(SlogKVErrorKey::from_str("error"), Some(SlogKVErrorKey::Error));
    assert_eq!(SlogKVErrorKey::from_str("root_cause"), Some(SlogKVErrorKey::RootCause));
    assert_eq!(SlogKVErrorKey::from_str("backtrace"), Some(SlogKVErrorKey::Backtrace));
    assert_eq!(SlogKVErrorKey::from_str("cause"), Some(SlogKVErrorKey::Cause));
    assert_eq!(SlogKVErrorKey::from_str("Error"), None);
    assert_eq!(SlogKVErrorKey::from_str(""), None);
    assert_eq!(SlogKVErrorKey::from_str("causes"), None);
}

#[test]
fn key_round_trip() {
    for key in [
        SlogKVErrorKey::Error,
        SlogKVErrorKey::RootCause,
        SlogKVErrorKey::Backtrace,
        SlogKVErrorKey::Cause,
    ] {
        assert_eq!(SlogKVErrorKey::from_str(key.to_str()), Some(key));
    }
}
