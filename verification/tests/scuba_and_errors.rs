use failure::Fail;
use mononoke_cmdlib::scuba::{finish_sample_fields, start_sample_fields, ScubaValue};
use mononoke_cmdlib::slogkv::{error_kv_pairs, SlogKVError, SlogKVErrorKey};

fn text_of(v: &ScubaValue) -> Option<&str> {
    match v {
        ScubaValue::Text(s) => Some(s.as_str()),
        ScubaValue::Int(_) => None,
    }
}

fn int_of(v: &ScubaValue) -> Option<u64> {
    match v {
        ScubaValue::Int(n) => Some(*n),
        ScubaValue::Text(_) => None,
    }
}

#[test]
fn start_sample() {
    let fields = start_sample_fields(
        "host".to_string(),
        Some("1.2.3.4".to_string()),
        "GET".to_string(),
        "/repo".to_string(),
    );
    let names: Vec<_> = fields.iter().map(|f| f.0).collect();
    assert_eq!(names, vec!["hostname", "client", "type", "method", "path"]);
    assert_eq!(text_of(&fields[0].1), Some("host"));
    assert_eq!(text_of(&fields[1].1), Some("1.2.3.4"));
    assert_eq!(text_of(&fields[2].1), Some("http"));
    assert_eq!(text_of(&fields[3].1), Some("GET"));
    assert_eq!(text_of(&fields[4].1), Some("/repo"));
    let fields = start_sample_fields("h".to_string(), None, "POST".to_string(), "/".to_string());
    let names: Vec<_> = fields.iter().map(|f| f.0).collect();
    assert_eq!(names, vec!["hostname", "type", "method", "path"]);
}

#[test]
fn finish_sample() {
    let fields = finish_sample_fields(404, 12, Some(30));
    let names: Vec<_> = fields.iter().map(|f| f.0).collect();
    assert_eq!(names, vec!["status_code", "response_size", "response_time"]);
    assert_eq!(int_of(&fields[0].1), Some(404));
    assert_eq!(int_of(&fields[1].1), Some(12));
    assert_eq!(int_of(&fields[2].1), Some(30));
    assert_eq!(finish_sample_fields(200, 0, None).len(), 2);
}

#[test]
fn error_pairs() {
    let pairs = error_kv_pairs(
        "outer".to_string(),
        "root".to_string(),
        "bt".to_string(),
        vec!["outer".to_string(), "middle".to_string(), "inner".to_string()],
    );
    assert_eq!(
        pairs,
        vec![
            (SlogKVErrorKey::Error, "outer".to_string()),
            (SlogKVErrorKey::RootCause, "root".to_string()),
            (SlogKVErrorKey::Backtrace, "bt".to_string()),
            (SlogKVErrorKey::Cause, "middle".to_string()),
            (SlogKVErrorKey::Cause, "inner".to_string()),
        ]
    );
    assert_eq!(error_kv_pairs("m".to_string(), "r".to_string(), "b".to_string(), vec![]).len(), 3);
}

#[test]
fn pairs_of_a_failure_error() {
    let inner = failure::err_msg("disk is full");
    let outer: failure::Error = inner.context("cannot write blob").into();
    let pairs = SlogKVError(outer).kv_pairs();
    assert_eq!(pairs.len(), 4);
    assert_eq!(pairs[0], (SlogKVErrorKey::Error, "cannot write blob".to_string()));
    assert_eq!(pairs[1].0, SlogKVErrorKey::RootCause);
    assert!(pairs[1].1.contains("disk is full"));
    assert_eq!(pairs[2].0, SlogKVErrorKey::Backtrace);
    assert_eq!(pairs[3], (SlogKVErrorKey::Cause, "disk is full".to_string()));
}

#[test]
fn pairs_of_a_plain_failure_error() {
    let pairs = SlogKVError(failure::err_msg("boom")).kv_pairs();
    assert_eq!(pairs.len(), 3);
    assert_eq!(pairs[0], (SlogKVErrorKey::Error, "boom".to_string()));
    let _ = failure::err_msg("x").as_fail().name();
}

#[test]
fn started_then_finished_sample_holds_both() {
    let mut sample: Vec<(&str, String)> = vec![("service", "api".to_string()), ("client", "old".to_string())];
    let mut add = |fields: Vec<(&'static str, ScubaValue)>| {
        for (name, value) in fields {
            let text = match &value {
                ScubaValue::Text(t) => t.clone(),
                ScubaValue::Int(n) => n.to_string(),
            };
            sample.retain(|(n, _)| *n != name);
            sample.push((name, text));
        }
    };
    add(start_sample_fields("h".to_string(), None, "GET".to_string(), "/p".to_string()));
    add(finish_sample_fields(200, 7, Some(3)));
    let get = |k: &str| sample.iter().find(|(n, _)| *n == k).map(|(_, v)| v.as_str());
    assert_eq!(get("service"), Some("api"));
    assert_eq!(get("client"), Some("old"));
    assert_eq!(get("hostname"), Some("h"));
    assert_eq!(get("type"), Some("http"));
    assert_eq!(get("method"), Some("GET"));
    assert_eq!(get("path"), Some("/p"));
    assert_eq!(get("status_code"), Some("200"));
    assert_eq!(get("response_size"), Some("7"));
    assert_eq!(get("response_time"), Some("3"));
    assert_eq!(sample.len(), 9);
}
