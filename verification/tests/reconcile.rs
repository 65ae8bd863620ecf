use gstplugin_core::envvar::EnvValue;
use gstplugin_core::options::{multiprocess_var_name, sandbox_var_name, Opts};

fn baseline(sandbox: bool, exit_after_load: bool) -> Opts {
    Opts {
        multiprocess: false,
        sandbox,
        exit_after_load,
        headless: true,
        user_agent: String::from("host-agent/1.0"),
    }
}

#[test]
fn multiprocess_override_keeps_host_sandbox() {
    let b = baseline(true, false);
    let r = Opts::from_env(&b, &EnvValue::Text(String::from("1")), &EnvValue::Absent);
    assert_eq!(r.multiprocess, true);
    assert_eq!(r.sandbox, true);
}

#[test]
fn multiprocess_defaults_to_false_regardless_of_baseline() {
    let mut b = baseline(false, false);
    b.multiprocess = true;
    let r = Opts::from_env(&b, &EnvValue::Absent, &EnvValue::Absent);
    assert_eq!(r.multiprocess, false);
}

#[test]
fn sandbox_defaults_to_baseline_value() {
    let b = baseline(true, false);
    let r = Opts::from_env(&b, &EnvValue::Absent, &EnvValue::Absent);
    assert_eq!(r.sandbox, true);
    let b2 = baseline(false, false);
    let r2 = Opts::from_env(&b2, &EnvValue::Absent, &EnvValue::Absent);
    assert_eq!(r2.sandbox, false);
}

#[test]
fn exit_after_load_forced_off_even_when_baseline_set_it() {
    let b = baseline(true, true);
    let r = Opts::from_env(
        &b,
        &EnvValue::Text(String::from("true")),
        &EnvValue::Text(String::from("true")),
    );
    assert_eq!(r.exit_after_load, false);
}

#[test]
fn malformed_overrides_fall_back_to_defaults() {
    let b = baseline(true, false);
    let r = Opts::from_env(
        &b,
        &EnvValue::Text(String::from("banana")),
        &EnvValue::Text(String::from("banana")),
    );
    assert_eq!(r.multiprocess, false);
    assert_eq!(r.sandbox, true);
}

#[test]
fn host_fields_pass_through_untouched() {
    let b = baseline(false, false);
    let r = Opts::from_env(&b, &EnvValue::Text(String::from("1")), &EnvValue::Text(String::from("0")));
    assert_eq!(r.headless, true);
    assert_eq!(r.user_agent, "host-agent/1.0");
}

#[test]
fn override_variable_names_are_fixed() {
    assert_eq!(multiprocess_var_name(), "SERVO_GST_MULTIPROCESS");
    assert_eq!(sandbox_var_name(), "SERVO_GST_SANDBOX");
}
