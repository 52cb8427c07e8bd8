use std::collections::HashMap;

use vaultrs::api::{HttpRequest, HttpResponse, Method, Payload, VaultClient, decode_empty};
use vaultrs::error::ClientError;
use vaultrs::kv1;
use vaultrs::wire::Value;

const ADDRESS: &str = "http://127.0.0.1:8200";

/// A key/value store that answers requests the way the service does.
struct FakeServer {
    secrets: HashMap<String, Vec<(String, String)>>,
}

fn answer(status: u16, payload: Payload) -> HttpResponse {
    HttpResponse { status, payload, lease_id: String::new(), lease_duration: 0, renewable: false }
}

impl FakeServer {
    fn new() -> FakeServer {
        FakeServer { secrets: HashMap::new() }
    }

    fn handle(&mut self, req: &HttpRequest) -> HttpResponse {
        let prefix = format!("{}/v1/", ADDRESS);
        assert!(req.url.starts_with(&prefix));
        assert_eq!(req.token, "root");
        let path = req.url[prefix.len()..].to_string();
        match req.method {
            Method::Post => {
                let mut data = Vec::new();
                for (k, v) in &req.body {
                    match v {
                        Value::Str(s) => data.push((k.clone(), s.clone())),
                        _ => return answer(400, Payload::Errors(vec!["bad value".to_string()])),
                    }
                }
                self.secrets.insert(path, data);
                answer(204, Payload::Nothing)
            }
            Method::Get => match self.secrets.get(&path) {
                Some(data) => {
                    let fields = data.iter().map(|(k, v)| (k.clone(), Value::Str(v.clone()))).collect();
                    HttpResponse {
                        status: 200,
                        payload: Payload::Data(fields),
                        lease_id: String::new(),
                        lease_duration: 2764800,
                        renewable: false,
                    }
                }
                None => answer(404, Payload::Errors(vec![])),
            },
            Method::List => {
                let dir = format!("{}/", path);
                let mut keys: Vec<String> = Vec::new();
                for stored in self.secrets.keys() {
                    if let Some(rest) = stored.strip_prefix(&dir) {
                        let key = match rest.find('/') {
                            Some(i) => rest[..=i].to_string(),
                            None => rest.to_string(),
                        };
                        if !keys.contains(&key) {
                            keys.push(key);
                        }
                    }
                }
                keys.sort();
                if keys.is_empty() {
                    answer(404, Payload::Errors(vec![]))
                } else {
                    answer(200, Payload::Data(vec![("keys".to_string(), Value::StrList(keys))]))
                }
            }
            Method::Delete => {
                self.secrets.remove(&path);
                answer(204, Payload::Nothing)
            }
        }
    }
}

fn lookup_pair<'a>(m: &'a [(String, String)], key: &str) -> Option<&'a String> {
    m.iter().find(|(k, _)| k == key).map(|(_, v)| v)
}

#[test]
fn test_kv1() {
    let mut server = FakeServer::new();
    let client = VaultClient::new(ADDRESS, "root");

    let mount = "kv_v1";
    let secret_path = "mysecret/foo";

    let expected_secret = vec![
        ("key1".to_string(), "value1".to_string()),
        ("key2".to_string(), "value2".to_string()),
    ];
    let resp = server.handle(&client.request(kv1::set(mount, secret_path, &expected_secret)));
    decode_empty(&resp).unwrap();

    // Read it
    let resp = server.handle(&client.request(kv1::get(mount, secret_path)));
    let read_secret = kv1::decode_get(&resp).unwrap();
    println!("{:?}", read_secret);
    assert_eq!(lookup_pair(&read_secret, "key1").unwrap(), lookup_pair(&expected_secret, "key1").unwrap());
    assert_eq!(lookup_pair(&read_secret, "key2").unwrap(), lookup_pair(&expected_secret, "key2").unwrap());

    // Read it as raw value
    let resp = server.handle(&client.request(kv1::get_raw(mount, secret_path)));
    let read_secret_raw = kv1::decode_get_raw(&resp).unwrap();
    println!("{:?}", read_secret_raw);
    assert_eq!(&read_secret_raw.value("key1").unwrap(), lookup_pair(&expected_secret, "key1").unwrap());
    assert_eq!(&read_secret_raw.value("key2").unwrap(), lookup_pair(&expected_secret, "key2").unwrap());

    // List secret keys
    let resp = server.handle(&client.request(kv1::list(mount, "mysecret")));
    let list_secret = kv1::decode_list(&resp).unwrap();
    println!("{:?}", list_secret);
    assert_eq!(list_secret.keys, vec!["foo"]);

    // Delete secret and read again and expect 404 to check deletion
    let resp = server.handle(&client.request(kv1::delete(mount, secret_path)));
    decode_empty(&resp).unwrap();

    let resp = server.handle(&client.request(kv1::get_raw(mount, secret_path)));
    let r = kv1::decode_get_raw(&resp);
    match r.expect_err(&format!("Expected error when reading {} after delete.", &secret_path)) {
        ClientError::APIError { code, .. } => {
            assert_eq!(code, 404, "Expected error code 404 for non-existing secret")
        }
        e => panic!("Expected error to be APIError with code 404, got {:?}", e),
    };
}

#[test]
fn set_then_get_returns_the_written_mapping() {
    let mut server = FakeServer::new();
    let client = VaultClient::new(ADDRESS, "root");
    let data = vec![
        ("user".to_string(), "admin".to_string()),
        ("password".to_string(), "hunter2".to_string()),
        ("empty".to_string(), String::new()),
    ];
    let resp = server.handle(&client.request(kv1::set("secret", "app/db", &data)));
    assert!(decode_empty(&resp).is_ok());
    let resp = server.handle(&client.request(kv1::get("secret", "app/db")));
    assert_eq!(kv1::decode_get(&resp).unwrap(), data);
}

#[test]
fn list_returns_immediate_children_only() {
    let mut server = FakeServer::new();
    let client = VaultClient::new(ADDRESS, "root");
    let data = vec![("k".to_string(), "v".to_string())];
    for p in ["dir/a", "dir/b", "dir/sub/c", "other/d"] {
        let resp = server.handle(&client.request(kv1::set("kv", p, &data)));
        decode_empty(&resp).unwrap();
    }
    let resp = server.handle(&client.request(kv1::list("kv", "dir")));
    let mut keys = kv1::decode_list(&resp).unwrap().keys;
    keys.sort();
    assert_eq!(keys, vec!["a".to_string(), "b".to_string(), "sub/".to_string()]);
}

#[test]
fn set_request_shape() {
    let data = vec![("key1".to_string(), "value1".to_string())];
    let ep = kv1::set("kv_v1", "mysecret/foo", &data);
    assert_eq!(ep.method, Method::Post);
    assert_eq!(ep.path, "kv_v1/mysecret/foo");
    assert_eq!(ep.body.len(), 1);
    assert_eq!(ep.body[0].0, "key1");
    assert!(matches!(&ep.body[0].1, Value::Str(s) if s == "value1"));
    let req = VaultClient::new(ADDRESS, "root").request(ep);
    assert_eq!(req.url, "http://127.0.0.1:8200/v1/kv_v1/mysecret/foo");
    assert_eq!(req.token, "root");
}

#[test]
fn other_verbs_request_shape() {
    let ep = kv1::list("kv_v1", "mysecret");
    assert_eq!(ep.method, Method::List);
    assert_eq!(ep.path, "kv_v1/mysecret");
    let ep = kv1::delete("kv_v1", "mysecret/foo");
    assert_eq!(ep.method, Method::Delete);
    assert!(ep.body.is_empty());
    let ep = kv1::get_raw("kv_v1", "mysecret/foo");
    assert_eq!(ep.method, Method::Get);
    assert_eq!(ep.path, "kv_v1/mysecret/foo");
}

#[test]
fn get_with_non_string_value_is_a_response_error() {
    let resp = answer(200, Payload::Data(vec![("n".to_string(), Value::Number(3))]));
    assert!(matches!(kv1::decode_get(&resp), Err(ClientError::ResponseError { .. })));
}

#[test]
fn get_without_data_is_a_response_error() {
    let resp = answer(200, Payload::Nothing);
    assert!(matches!(kv1::decode_get(&resp), Err(ClientError::ResponseError { .. })));
}

#[test]
fn get_raw_keeps_lease_fields() {
    let resp = HttpResponse {
        status: 200,
        payload: Payload::Data(vec![("a".to_string(), Value::Str("b".to_string()))]),
        lease_id: "lease-1".to_string(),
        lease_duration: 60,
        renewable: true,
    };
    let raw = kv1::decode_get_raw(&resp).unwrap();
    assert_eq!(raw.data, vec![("a".to_string(), "b".to_string())]);
    assert_eq!(raw.lease_id, "lease-1");
    assert_eq!(raw.lease_duration, 60);
    assert!(raw.renewable);
    assert_eq!(raw.value("missing"), None);
}

#[test]
fn list_without_keys_is_a_response_error() {
    let resp = answer(200, Payload::Data(vec![("keys".to_string(), Value::Str("x".to_string()))]));
    assert!(matches!(kv1::decode_list(&resp), Err(ClientError::ResponseError { .. })));
}

#[test]
fn forbidden_list_is_an_api_error_with_messages() {
    let resp = answer(403, Payload::Errors(vec!["permission denied".to_string()]));
    match kv1::decode_list(&resp) {
        Err(ClientError::APIError { code, errors }) => {
            assert_eq!(code, 403);
            assert_eq!(errors, vec!["permission denied".to_string()]);
        }
        other => panic!("unexpected {:?}", other),
    }
}
