use vaultrs::api::{Decoded, HttpResponse, Payload, Shape, decode};
use vaultrs::error::ClientError;
use vaultrs::wire::{Value, get_field};

fn response(status: u16, payload: Payload) -> HttpResponse {
    HttpResponse { status, payload, lease_id: String::new(), lease_duration: 0, renewable: false }
}

#[test]
fn decode_by_shape() {
    let data = vec![("k".to_string(), Value::Str("v".to_string()))];
    match decode(Shape::Data, response(200, Payload::Data(data))) {
        Ok(Decoded::Data(f)) => assert!(matches!(get_field(&f, "k"), Some(Value::Str(s)) if s == "v")),
        other => panic!("unexpected {:?}", other),
    }
    assert!(matches!(decode(Shape::Empty, response(204, Payload::Nothing)), Ok(Decoded::Empty)));
    assert!(matches!(
        decode(Shape::Data, response(200, Payload::Nothing)),
        Err(ClientError::ResponseError { .. })
    ));
    let auth = vec![
        ("client_token".to_string(), Value::Str("s.t".to_string())),
        ("accessor".to_string(), Value::Str("a".to_string())),
        ("policies".to_string(), Value::StrList(vec![])),
        ("lease_duration".to_string(), Value::Number(10)),
        ("renewable".to_string(), Value::Bool(true)),
    ];
    match decode(Shape::Auth, response(200, Payload::Auth(auth))) {
        Ok(Decoded::Auth(a)) => {
            assert_eq!(a.client_token, "s.t");
            assert_eq!(a.lease_duration, 10);
        }
        other => panic!("unexpected {:?}", other),
    }
}

#[test]
fn decode_classifies_status_first() {
    let r = decode(Shape::Empty, response(404, Payload::Errors(vec!["not found".to_string()])));
    match r {
        Err(ClientError::APIError { code, errors }) => {
            assert_eq!(code, 404);
            assert_eq!(errors, vec!["not found".to_string()]);
        }
        other => panic!("unexpected {:?}", other),
    }
}

#[test]
fn first_field_of_a_name_wins() {
    let f = vec![
        ("a".to_string(), Value::Number(1)),
        ("a".to_string(), Value::Number(2)),
    ];
    assert!(matches!(get_field(&f, "a"), Some(Value::Number(1))));
    assert!(get_field(&f, "b").is_none());
}
