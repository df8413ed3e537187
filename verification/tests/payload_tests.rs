use wasp::envvar::EnvValue;
use wasp::payload::{configure_payload, create_payload};

fn pair(name: &str, value: &str) -> (String, EnvValue) {
    (name.to_owned(), EnvValue::Text(value.to_owned()))
}

#[test]
fn create_payload_carries_all_present_fields() {
    let body = create_payload(
        "myhost",
        "cust123",
        &Some("m_42".to_owned()),
        &None,
        vec![pair("FOO", "bar")],
    );
    assert_eq!(
        body,
        "{\"host\":\"myhost\",\"customer_id\":\"cust123\",\"module\":\"m_42\",\"env\":{\"FOO\":\"bar\"}}"
    );
}

#[test]
fn create_payload_omits_absent_fields_and_empty_env() {
    let body = create_payload("h", "c", &None, &None, vec![]);
    assert_eq!(body, "{\"host\":\"h\",\"customer_id\":\"c\"}");
}

#[test]
fn create_payload_with_function_only() {
    let body = create_payload("h", "c", &None, &Some("run".to_owned()), vec![]);
    assert_eq!(body, "{\"host\":\"h\",\"customer_id\":\"c\",\"function\":\"run\"}");
}

#[test]
fn null_env_value_is_sent_as_json_null() {
    let body = create_payload("h", "c", &None, &None, vec![("FOO".to_owned(), EnvValue::Null)]);
    assert_eq!(body, "{\"host\":\"h\",\"customer_id\":\"c\",\"env\":{\"FOO\":null}}");
}

#[test]
fn env_names_and_values_are_escaped() {
    let body = create_payload("h", "c", &None, &None, vec![pair("QU\"OTE", "a\\b\nc")]);
    assert_eq!(
        body,
        "{\"host\":\"h\",\"customer_id\":\"c\",\"env\":{\"QU\\\"OTE\":\"a\\\\b\\nc\"}}"
    );
}

#[test]
fn control_characters_get_unicode_escapes() {
    let body = create_payload("h", "c", &None, &None, vec![pair("K", "\u{1f}\u{01}")]);
    assert_eq!(
        body,
        "{\"host\":\"h\",\"customer_id\":\"c\",\"env\":{\"K\":\"\\u001f\\u0001\"}}"
    );
}

#[test]
fn duplicate_env_names_collapse_to_last_value() {
    let body = create_payload(
        "h",
        "c",
        &None,
        &None,
        vec![pair("A", "1"), pair("B", "2"), pair("A", "3")],
    );
    assert_eq!(
        body,
        "{\"host\":\"h\",\"customer_id\":\"c\",\"env\":{\"B\":\"2\",\"A\":\"3\"}}"
    );
}

#[test]
fn configure_payload_with_nothing_present_is_empty_object() {
    let body = configure_payload(&None, &None, vec![]);
    assert_eq!(body, "{}");
}

#[test]
fn configure_payload_omits_absent_fields() {
    let body = configure_payload(&Some("m_1".to_owned()), &None, vec![]);
    assert_eq!(body, "{\"module\":\"m_1\"}");
    let body = configure_payload(&None, &Some("run".to_owned()), vec![]);
    assert_eq!(body, "{\"function\":\"run\"}");
    let body = configure_payload(&None, &None, vec![pair("A", "1")]);
    assert_eq!(body, "{\"env\":{\"A\":\"1\"}}");
}

#[test]
fn configure_payload_separates_present_fields_with_commas() {
    let body = configure_payload(
        &Some("m_1".to_owned()),
        &Some("run".to_owned()),
        vec![pair("A", "1")],
    );
    assert_eq!(
        body,
        "{\"module\":\"m_1\",\"function\":\"run\",\"env\":{\"A\":\"1\"}}"
    );
}

#[test]
fn payload_text_is_valid_json() {
    let body = create_payload(
        "my\"host",
        "cust123",
        &Some("m_42".to_owned()),
        &Some("ru\\n".to_owned()),
        vec![pair("FOO", "b\tar"), ("NIL".to_owned(), EnvValue::Null)],
    );
    let v: serde_json::Value = serde_json::from_str(&body).unwrap();
    assert_eq!(v["host"], "my\"host");
    assert_eq!(v["customer_id"], "cust123");
    assert_eq!(v["module"], "m_42");
    assert_eq!(v["function"], "ru\\n");
    assert_eq!(v["env"]["FOO"], "b\tar");
    assert!(v["env"]["NIL"].is_null());
}
