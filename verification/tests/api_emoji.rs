use slack::api::{emoji, decode_response, ApiResult};
use slack::json::Json;

fn to_json(v: &serde_json::Value) -> Json {
    match v {
        serde_json::Value::Null => Json::Null,
        serde_json::Value::Bool(b) => Json::Bool(*b),
        serde_json::Value::Number(n) => match (n.as_i64(), n.as_u64()) {
            (Some(i), _) => Json::Int(i as i128),
            (None, Some(u)) => Json::Int(u as i128),
            _ => Json::Decimal,
        },
        serde_json::Value::String(s) => Json::Str(s.clone()),
        serde_json::Value::Array(items) => Json::Array(items.iter().map(to_json).collect()),
        serde_json::Value::Object(fields) => {
            Json::Object(fields.iter().map(|(k, v)| (k.clone(), to_json(v))).collect())
        }
    }
}

fn parse(text: &str) -> Json {
    to_json(&serde_json::from_str::<serde_json::Value>(text).unwrap())
}

#[test]
fn emoji_general_api_error_response() {
    let request = emoji::list("TEST_TOKEN");
    assert_eq!(request.method, "emoji.list");
    assert_eq!(request.token, "TEST_TOKEN");
    let result: ApiResult<emoji::ListResponse> = decode_response(&parse(r#"{"ok": false, "err": "some_error"}"#));
    assert!(result.is_err());
}

#[test]
fn emoji_test_ok_response() {
    let request = emoji::list("TEST_TOKEN");
    assert_eq!(request.method, "emoji.list");
    assert_eq!(request.token, "TEST_TOKEN");
    let result: ApiResult<emoji::ListResponse> = decode_response(&parse(r#"{
            "ok": true,
            "emoji": {
                "bowtie": "https:\/\/my.slack.com\/emoji\/bowtie\/46ec6f2bb0.png",
                "squirrel": "https:\/\/my.slack.com\/emoji\/squirrel\/f35f40c0e0.png",
                "shipit": "alias:squirrel"
            }
        }"#));
    if let Err(err) = result {
        panic!("{:?}", err);
    }
    assert_eq!(result.unwrap().emoji.get("shipit").unwrap(), "alias:squirrel");
}
