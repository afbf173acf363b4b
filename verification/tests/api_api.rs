use slack::api::{api, decode_response, ApiResult};
use slack::json::Json;
use slack::string_map::StringMap;

fn to_json(v: &serde_json::Value) -> Json {
    match v {
        serde_json::Value::Null => Json::Null,
        serde_json::Value::Bool(b) => Json::Bool(*b),
        serde_json::Value::Number(n) => match (n.as_i64(), n.as_u64()) {
            (Some(i), _) => Json::Int(i as i128),
            (None, Some(u)) => Json::Int(u as i128),
            _ => Json::Decimal,
        },
        serde_json::Value::String(s) => Json::Str(s.clone()),
        serde_json::Value::Array(items) => Json::Array(items.iter().map(to_json).collect()),
        serde_json::Value::Object(fields) => {
            Json::Object(fields.iter().map(|(k, v)| (k.clone(), to_json(v))).collect())
        }
    }
}

fn parse(text: &str) -> Json {
    to_json(&serde_json::from_str::<serde_json::Value>(text).unwrap())
}

#[test]
fn api_general_api_error_response() {
    let request = api::test("TEST_TOKEN", None, Some("some_error"));
    assert_eq!(request.method, "api.test");
    assert_eq!(request.token, "TEST_TOKEN");
    let result: ApiResult<api::ApiTestResponse> = decode_response(&parse(r#"{"ok": false, "err": "some_error"}"#));
    assert!(result.is_err());
}

#[test]
fn api_test_ok_response() {
    let mut args = StringMap::new();
    args.insert("arg1".to_string(), "val1".to_string());
    args.insert("arg2".to_string(), "val2".to_string());
    let request = api::test("TEST_TOKEN", Some(args), None);
    assert_eq!(request.method, "api.test");
    assert_eq!(request.token, "TEST_TOKEN");
    let result: ApiResult<api::ApiTestResponse> = decode_response(&parse(r#"{
            "ok": true,
            "args": {
                "arg1": "val1",
                "arg2": "val2"
            }
        }"#));
    if let Err(err) = result {
        panic!("{:?}", err);
    }
    assert_eq!(result.unwrap().args.unwrap().get("arg1").unwrap(), "val1");
}
