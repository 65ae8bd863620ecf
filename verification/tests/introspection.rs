use gstplugin_core::features::Vars;

fn pair(k: &str, v: &str) -> (String, String) {
    (String::from(k), String::from(v))
}

fn snapshot() -> Vec<(String, String)> {
    vec![
        pair("CARGO_FEATURE_FOO", "1"),
        pair("CARGO_FEATURE_BAR", "1"),
        pair("CARGO_OTHER", "x"),
        pair("PATH", "/usr/bin"),
    ]
}

fn keys(pairs: &[(String, String)]) -> Vec<String> {
    pairs.iter().map(|p| p.0.clone()).collect()
}

#[test]
fn feature_filter_yields_exactly_the_feature_flags() {
    let vars = Vars::from_pairs(&snapshot());
    let feats = vars.features();
    let ks = keys(&feats);
    assert_eq!(ks.len(), 2);
    assert!(ks.contains(&String::from("CARGO_FEATURE_FOO")));
    assert!(ks.contains(&String::from("CARGO_FEATURE_BAR")));
}

#[test]
fn full_introspection_yields_all_prefixed_pairs() {
    let vars = Vars::from_pairs(&snapshot());
    let all = vars.pairs();
    let ks = keys(all);
    assert_eq!(ks.len(), 3);
    assert!(ks.contains(&String::from("CARGO_FEATURE_FOO")));
    assert!(ks.contains(&String::from("CARGO_FEATURE_BAR")));
    assert!(ks.contains(&String::from("CARGO_OTHER")));
    assert!(!ks.contains(&String::from("PATH")));
}

#[test]
fn empty_feature_set_is_observable() {
    let vars = Vars::from_pairs(&vec![pair("CARGO_OTHER", "x"), pair("HOME", "/root")]);
    assert!(vars.features().is_empty());
}

#[test]
fn has_feature_normalizes_case_and_hyphens() {
    let vars = Vars::from_pairs(&vec![
        pair("CARGO_FEATURE_FOO_BAR", "1"),
        pair("CARGO_FEATURE_BAZ", "1"),
    ]);
    assert!(vars.has_feature("foo-bar"));
    assert!(vars.has_feature("baz"));
    assert!(vars.has_feature("BAZ"));
    assert!(!vars.has_feature("foo"));
    assert!(!vars.has_feature("quux"));
}

#[test]
fn feature_values_are_kept() {
    let vars = Vars::from_pairs(&vec![pair("CARGO_FEATURE_FOO", "on")]);
    let feats = vars.features();
    assert_eq!(feats.len(), 1);
    assert_eq!(feats[0].0, "CARGO_FEATURE_FOO");
    assert_eq!(feats[0].1, "on");
}
