use gemon::config::effector::Effector;
use gemon::project::Environment;

fn env(pairs: &[(&str, &str)]) -> Option<Environment> {
    let mut e = Environment::from((pairs[0].0.to_string(), pairs[0].1.to_string()));
    for (k, v) in &pairs[1..] {
        e.add_value((k.to_string(), v.to_string()));
    }
    Some(e)
}

#[test]
fn without_environment_text_passes_through() {
    assert_eq!(Effector::apply_env_to_string(&None, "{a}/x".to_string()), "{a}/x");
    let tokens = vec!["prog".to_string(), "-u={a}".to_string()];
    assert_eq!(Effector::apply_env_to_args(&None, tokens.clone()), tokens);
}

#[test]
fn every_occurrence_is_replaced() {
    let e = env(&[("a", "1")]);
    assert_eq!(Effector::apply_env_to_string(&e, "{a}{a}-{a}".to_string()), "11-1");
}

#[test]
fn unknown_placeholders_stay() {
    let e = env(&[("a", "1")]);
    assert_eq!(Effector::apply_env_to_string(&e, "{b} {a} {A} {a".to_string()), "{b} 1 {A} {a");
}

#[test]
fn several_keys_are_applied() {
    let e = env(&[("host", "example.com"), ("token", "abc")]);
    assert_eq!(
        Effector::apply_env_to_string(&e, "https://{host}/x?t={token}".to_string()),
        "https://example.com/x?t=abc"
    );
}

#[test]
fn each_key_is_applied_once_in_order() {
    let e = env(&[("a", "{b}"), ("b", "{a}")]);
    assert_eq!(Effector::apply_env_to_string(&e, "{a}".to_string()), "{a}");
    assert_eq!(Effector::apply_env_to_string(&e, "{b}".to_string()), "{a}");
}

#[test]
fn value_may_be_empty_or_longer() {
    let e = env(&[("a", ""), ("b", "0123456789")]);
    assert_eq!(Effector::apply_env_to_string(&e, "x{a}y{b}z".to_string()), "xy0123456789z");
}

#[test]
fn empty_key_has_the_placeholder_of_two_braces() {
    let e = env(&[("", "v")]);
    assert_eq!(Effector::apply_env_to_string(&e, "a{}b".to_string()), "avb");
}

#[test]
fn every_token_is_rewritten() {
    let e = env(&[("id", "7")]);
    let out = Effector::apply_env_to_args(
        &e,
        vec!["prog".to_string(), "-u=/u/{id}".to_string(), "-h=X::{id}".to_string(), "-l".to_string()],
    );
    assert_eq!(out, vec!["prog", "-u=/u/7", "-h=X::7", "-l"]);
}

#[test]
fn text_with_characters_beyond_ascii() {
    let e = env(&[("n", "é")]);
    assert_eq!(Effector::apply_env_to_string(&e, "ü{n}ü".to_string()), "üéü");
}
