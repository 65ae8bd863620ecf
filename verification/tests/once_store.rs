use gstplugin_core::envvar::EnvValue;
use gstplugin_core::options::Opts;
use gstplugin_core::store::{init, ConfigStore, OnceState};

fn baseline() -> Opts {
    Opts {
        multiprocess: false,
        sandbox: true,
        exit_after_load: true,
        headless: false,
        user_agent: String::from("host-agent/1.0"),
    }
}

#[test]
fn fresh_store_has_published_nothing() {
    let s = ConfigStore::new();
    assert_eq!(s.state, OnceState::NotRun);
    assert!(s.published().is_none());
}

#[test]
fn first_init_publishes_reconciled_options() {
    let mut s = ConfigStore::new();
    init(&mut s, &baseline(), &EnvValue::Text(String::from("1")), &EnvValue::Absent);
    assert_eq!(s.state, OnceState::Done);
    let p = s.published().expect("first call must publish");
    assert_eq!(p.multiprocess, true);
    assert_eq!(p.sandbox, true);
    assert_eq!(p.exit_after_load, false);
}

#[test]
fn later_init_calls_change_nothing() {
    let mut s = ConfigStore::new();
    init(&mut s, &baseline(), &EnvValue::Text(String::from("1")), &EnvValue::Absent);
    let mut other = baseline();
    other.sandbox = false;
    init(&mut s, &other, &EnvValue::Text(String::from("0")), &EnvValue::Text(String::from("0")));
    init(&mut s, &other, &EnvValue::Absent, &EnvValue::Absent);
    let p = s.published().expect("still published");
    assert_eq!(p.multiprocess, true);
    assert_eq!(p.sandbox, true);
    assert_eq!(p.exit_after_load, false);
    assert_eq!(s.state, OnceState::Done);
}
