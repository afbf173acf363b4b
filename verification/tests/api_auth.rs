use slack::api::{auth, decode_response, ApiResult};
use slack::json::Json;

fn to_json(v: &serde_json::Value) -> Json {
    match v {
        serde_json::Value::Null => Json::Null,
        serde_json::Value::Bool(b) => Json::Bool(*b),
        serde_json::Value::Number(n) => match (n.as_i64(), n.as_u64()) {
            (Some(i), _) => Json::Int(i as i128),
            (None, Some(u)) => Json::Int(u as i128),
            _ => Json::Decimal,
        },
        serde_json::Value::String(s) => Json::Str(s.clone()),
        serde_json::Value::Array(items) => Json::Array(items.iter().map(to_json).collect()),
        serde_json::Value::Object(fields) => {
            Json::Object(fields.iter().map(|(k, v)| (k.clone(), to_json(v))).collect())
        }
    }
}

fn parse(text: &str) -> Json {
    to_json(&serde_json::from_str::<serde_json::Value>(text).unwrap())
}

#[test]
fn auth_general_api_error_response() {
    let request = auth::test("TEST_TOKEN");
    assert_eq!(request.method, "auth.test");
    assert_eq!(request.token, "TEST_TOKEN");
    let result: ApiResult<auth::TestResponse> = decode_response(&parse(r#"{"ok": false, "err": "some_error"}"#));
    assert!(result.is_err());
}

#[test]
fn auth_test_ok_response() {
    let request = auth::test("TEST_TOKEN");
    assert_eq!(request.method, "auth.test");
    assert_eq!(request.token, "TEST_TOKEN");
    let result: ApiResult<auth::TestResponse> = decode_response(&parse(r#"{
            "ok": true,
            "url": "https:\/\/example-team.slack.com\/",
            "team": "example team",
            "user": "testuser",
            "team_id": "T12345678",
            "user_id": "U12345678"
        }"#));
    if let Err(err) = result {
        panic!("{:?}", err);
    }
    assert_eq!(result.unwrap().user, "testuser");
}
