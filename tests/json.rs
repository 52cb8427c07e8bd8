use vaultrs::json::encode_body;
use vaultrs::token::{self, CreateTokenRequestBuilder};
use vaultrs::kv1;
use vaultrs::wire::Value;

fn text(f: &Vec<(String, Value)>) -> String {
    String::from_utf8(encode_body(f)).unwrap()
}

#[test]
fn empty_body_is_an_empty_object() {
    assert_eq!(text(&Vec::new()), "{}");
}

#[test]
fn scalar_values() {
    let f = vec![
        ("a".to_string(), Value::Null),
        ("b".to_string(), Value::Bool(true)),
        ("c".to_string(), Value::Bool(false)),
        ("d".to_string(), Value::Number(0)),
        ("e".to_string(), Value::Number(18446744073709551615)),
        ("f".to_string(), Value::Str("x".to_string())),
    ];
    assert_eq!(text(&f), r#"{"a":null,"b":true,"c":false,"d":0,"e":18446744073709551615,"f":"x"}"#);
}

#[test]
fn strings_are_escaped() {
    let f = vec![("k\"ey".to_string(), Value::Str("a\\b\n\u{1f}é".to_string()))];
    assert_eq!(text(&f), "{\"k\\\"ey\":\"a\\\\b\\u000a\\u001fé\"}");
}

#[test]
fn lists_and_maps() {
    let f = vec![
        ("policies".to_string(), Value::StrList(vec!["default".to_string(), "admin".to_string()])),
        ("empty".to_string(), Value::StrList(vec![])),
        ("meta".to_string(), Value::StrMap(vec![("user".to_string(), "bob".to_string())])),
    ];
    assert_eq!(text(&f), r#"{"policies":["default","admin"],"empty":[],"meta":{"user":"bob"}}"#);
}

#[test]
fn request_bodies_on_the_wire() {
    assert_eq!(text(&token::renew("s.abc", None).body), r#"{"token":"s.abc"}"#);
    assert_eq!(text(&token::renew("s.abc", Some("1h")).body), r#"{"token":"s.abc","increment":"1h"}"#);
    let opts = CreateTokenRequestBuilder::new().ttl("30m").num_uses(2).renewable(true);
    assert_eq!(text(&token::new(Some(opts)).body), r#"{"ttl":"30m","num_uses":2,"renewable":true}"#);
    let data = vec![
        ("key1".to_string(), "value1".to_string()),
        ("key2".to_string(), "value2".to_string()),
    ];
    assert_eq!(text(&kv1::set("kv_v1", "mysecret/foo", &data).body), r#"{"key1":"value1","key2":"value2"}"#);
}
