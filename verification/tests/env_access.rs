use gstplugin_core::envvar::{env_boolean, env_boolean_ensure, EnvValue, ParseEnvError};
use gstplugin_core::parse::IntParseError;

#[test]
fn absent_returns_default() {
    assert_eq!(env_boolean(&EnvValue::Absent, true), Ok(true));
    assert_eq!(env_boolean(&EnvValue::Absent, false), Ok(false));
}

#[test]
fn set_and_parseable_returns_resolved_value() {
    let v = EnvValue::Text(String::from("1"));
    assert_eq!(env_boolean(&v, false), Ok(true));
    let w = EnvValue::Text(String::from("false"));
    assert_eq!(env_boolean(&w, true), Ok(false));
}

#[test]
fn strict_surfaces_combined_parse_failure() {
    let v = EnvValue::Text(String::from("maybe"));
    match env_boolean(&v, true) {
        Err(ParseEnvError::Parse(e)) => assert_eq!(e.int_error, IntParseError::InvalidDigit),
        other => panic!("expected a parse failure, got {:?}", other),
    }
}

#[test]
fn strict_surfaces_not_unicode_with_bytes() {
    let raw = vec![0xffu8, 0xfe, 0x00];
    let v = EnvValue::NotUnicode(raw.clone());
    match env_boolean(&v, true) {
        Err(ParseEnvError::NotUnicode(b)) => assert_eq!(b, raw),
        other => panic!("expected a not-unicode failure, got {:?}", other),
    }
}

#[test]
fn best_effort_falls_back_on_malformed_value() {
    let v = EnvValue::Text(String::from("maybe"));
    assert_eq!(env_boolean_ensure(&v, true), true);
    assert_eq!(env_boolean_ensure(&v, false), false);
}

#[test]
fn best_effort_falls_back_on_not_unicode() {
    let v = EnvValue::NotUnicode(vec![0xff, 0xfe]);
    assert_eq!(env_boolean_ensure(&v, true), true);
    assert_eq!(env_boolean_ensure(&v, false), false);
}

#[test]
fn best_effort_uses_resolved_value_when_set() {
    let v = EnvValue::Text(String::from("0"));
    assert_eq!(env_boolean_ensure(&v, true), false);
}

#[test]
fn best_effort_uses_default_when_absent() {
    assert_eq!(env_boolean_ensure(&EnvValue::Absent, true), true);
    assert_eq!(env_boolean_ensure(&EnvValue::Absent, false), false);
}
