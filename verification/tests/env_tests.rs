use subenv::envcfg::{compose_env, split_env_pair};

fn pairs(v: &[(&str, &str)]) -> Vec<(String, String)> {
    v.iter()
        .map(|(k, val)| (String::from(*k), String::from(*val)))
        .collect()
}

fn names(v: &[&str]) -> Vec<String> {
    v.iter().map(|n| String::from(*n)).collect()
}

#[test]
fn split_at_first_equals() {
    let (k, v) = split_env_pair("FOO=bar");
    assert_eq!(k, "FOO");
    assert_eq!(v, "bar");
}

#[test]
fn split_keeps_later_equals_in_the_value() {
    let (k, v) = split_env_pair("A=B=C");
    assert_eq!(k, "A");
    assert_eq!(v, "B=C");
}

#[test]
fn split_without_equals_gives_empty_value() {
    let (k, v) = split_env_pair("JUSTAKEY");
    assert_eq!(k, "JUSTAKEY");
    assert_eq!(v, "");
}

#[test]
fn split_trailing_equals_gives_empty_value() {
    let (k, v) = split_env_pair("KEY=");
    assert_eq!(k, "KEY");
    assert_eq!(v, "");
}

#[test]
fn split_leading_equals_gives_empty_key() {
    let (k, v) = split_env_pair("=bar");
    assert_eq!(k, "");
    assert_eq!(v, "bar");
}

#[test]
fn cleared_environment_holds_exactly_the_explicit_binding() {
    let inherited = pairs(&[("HOME", "/root"), ("PATH", "/bin")]);
    let set = pairs(&[("FOO", "bar")]);
    let r = compose_env(&inherited, true, &names(&[]), &set);
    assert_eq!(r.len(), 1);
    assert_eq!(r[0].0, "FOO");
    assert_eq!(r[0].1, "bar");
}

#[test]
fn unset_removes_only_the_named_variable() {
    let inherited = pairs(&[("PATH", "/bin"), ("HOME", "/root"), ("TERM", "dumb")]);
    let r = compose_env(&inherited, false, &names(&["PATH"]), &pairs(&[]));
    assert_eq!(r.len(), 2);
    assert_eq!(r[0].0, "HOME");
    assert_eq!(r[0].1, "/root");
    assert_eq!(r[1].0, "TERM");
    assert_eq!(r[1].1, "dumb");
    assert!(r.iter().all(|(k, _)| k != "PATH"));
}

#[test]
fn empty_value_stays_present_and_empty() {
    let (k, v) = split_env_pair("KEY=");
    let r = compose_env(&pairs(&[]), false, &names(&[]), &vec![(k, v)]);
    assert_eq!(r.len(), 1);
    assert_eq!(r[0].0, "KEY");
    assert_eq!(r[0].1, "");
    let absent = compose_env(&pairs(&[]), false, &names(&[]), &pairs(&[]));
    assert!(absent.iter().all(|(key, _)| key != "KEY"));
}

#[test]
fn later_binding_wins_over_inherited() {
    let inherited = pairs(&[("FOO", "old")]);
    let set = pairs(&[("FOO", "new")]);
    let r = compose_env(&inherited, false, &names(&[]), &set);
    let last = r.iter().rev().find(|(k, _)| k == "FOO").unwrap();
    assert_eq!(last.1, "new");
}

#[test]
fn set_after_unset_restores_the_variable() {
    let inherited = pairs(&[("FOO", "old")]);
    let r = compose_env(&inherited, false, &names(&["FOO"]), &pairs(&[("FOO", "new")]));
    assert_eq!(r.len(), 1);
    assert_eq!(r[0].0, "FOO");
    assert_eq!(r[0].1, "new");
}

#[test]
fn plain_run_keeps_the_inherited_bindings() {
    let inherited = pairs(&[("A", "1"), ("B", "2")]);
    let r = compose_env(&inherited, false, &names(&[]), &pairs(&[]));
    assert_eq!(r.len(), 2);
    assert_eq!(r[0].0, "A");
    assert_eq!(r[1].0, "B");
}
