use wasp::envvar::{dedup_env, parse_env, resolve_env_token, EnvToken, EnvValue};

fn settled(input: &str, ambient: Option<&str>) -> Result<(String, EnvValue), String> {
    resolve_env_token(parse_env(input), ambient.map(|s| s.to_owned()))
}

#[test]
fn name_value_becomes_json_string() {
    let (name, value) = settled("FOO=bar", None).unwrap();
    assert_eq!(name, "FOO");
    assert!(matches!(value, EnvValue::Text(t) if t == "bar"));
}

#[test]
fn name_with_empty_value_becomes_null() {
    let (name, value) = settled("FOO=", None).unwrap();
    assert_eq!(name, "FOO");
    assert!(matches!(value, EnvValue::Null));
}

#[test]
fn bare_name_parses_to_lookup() {
    let token = parse_env("FOO");
    assert!(matches!(token, EnvToken::Lookup(name) if name == "FOO"));
}

#[test]
fn bare_name_takes_ambient_value() {
    let (name, value) = settled("FOO", Some("from-env")).unwrap();
    assert_eq!(name, "FOO");
    assert!(matches!(value, EnvValue::Text(t) if t == "from-env"));
}

#[test]
fn bare_name_unset_fails() {
    let err = settled("FOO", None).unwrap_err();
    assert_eq!(err, "FOO not found");
}

#[test]
fn value_keeps_everything_after_first_equals() {
    let (name, value) = settled("A=B=C", None).unwrap();
    assert_eq!(name, "A");
    assert!(matches!(value, EnvValue::Text(t) if t == "B=C"));
}

#[test]
fn value_starting_with_equals_is_a_string() {
    let (name, value) = settled("A==B", None).unwrap();
    assert_eq!(name, "A");
    assert!(matches!(value, EnvValue::Text(t) if t == "=B"));
}

#[test]
fn empty_token_is_lookup_of_empty_name() {
    let token = parse_env("");
    assert!(matches!(token, EnvToken::Lookup(name) if name.is_empty()));
}

#[test]
fn dedup_keeps_last_value_per_name() {
    let env = vec![
        ("A".to_owned(), EnvValue::Text("1".to_owned())),
        ("B".to_owned(), EnvValue::Text("2".to_owned())),
        ("A".to_owned(), EnvValue::Text("3".to_owned())),
    ];
    let d = dedup_env(env);
    assert_eq!(d.len(), 2);
    assert_eq!(d[0].0, "B");
    assert!(matches!(&d[0].1, EnvValue::Text(t) if t == "2"));
    assert_eq!(d[1].0, "A");
    assert!(matches!(&d[1].1, EnvValue::Text(t) if t == "3"));
}

#[test]
fn dedup_of_distinct_names_keeps_order() {
    let env = vec![
        ("A".to_owned(), EnvValue::Null),
        ("B".to_owned(), EnvValue::Text("2".to_owned())),
    ];
    let d = dedup_env(env);
    assert_eq!(d.len(), 2);
    assert_eq!(d[0].0, "A");
    assert_eq!(d[1].0, "B");
}
