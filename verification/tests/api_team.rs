use slack::api::{team, decode_response, ApiResult};
use slack::json::Json;

fn to_json(v: &serde_json::Value) -> Json {
    match v {
        serde_json::Value::Null => Json::Null,
        serde_json::Value::Bool(b) => Json::Bool(*b),
        serde_json::Value::Number(n) => match (n.as_i64(), n.as_u64()) {
            (Some(i), _) => Json::Int(i as i128),
            (None, Some(u)) => Json::Int(u as i128),
            _ => Json::Decimal,
        },
        serde_json::Value::String(s) => Json::Str(s.clone()),
        serde_json::Value::Array(items) => Json::Array(items.iter().map(to_json).collect()),
        serde_json::Value::Object(fields) => {
            Json::Object(fields.iter().map(|(k, v)| (k.clone(), to_json(v))).collect())
        }
    }
}

fn parse(text: &str) -> Json {
    to_json(&serde_json::from_str::<serde_json::Value>(text).unwrap())
}

#[test]
fn team_general_api_error_response() {
    let request = team::access_logs("TEST_TOKEN", None, None);
    assert_eq!(request.method, "team.accessLogs");
    assert_eq!(request.token, "TEST_TOKEN");
    let result: ApiResult<team::AccessLogsResponse> = decode_response(&parse(r#"{"ok": false, "err": "some_error"}"#));
    assert!(result.is_err());
}

#[test]
fn access_logs_ok_response() {
    let request = team::access_logs("TEST_TOKEN", None, None);
    assert_eq!(request.method, "team.accessLogs");
    assert_eq!(request.token, "TEST_TOKEN");
    let result: ApiResult<team::AccessLogsResponse> = decode_response(&parse(r#"
        {
            "ok": true,
            "logins": [
                {
                    "user_id": "U12345",
                    "username": "bob",
                    "date_first": 1422922864,
                    "date_last": 1422922864,
                    "count": 1,
                    "ip": "127.0.0.1",
                    "user_agent": "SlackWeb Mozilla\/5.0 (Macintosh; Intel Mac OS X 10_10_2) AppleWebKit\/537.36 (KHTML, like Gecko) Chrome\/41.0.2272.35 Safari\/537.36",
                    "isp": "BigCo ISP",
                    "country": "US",
                    "region": "CA"
                },
                {
                    "user_id": "U45678",
                    "username": "alice",
                    "date_first": 1422922493,
                    "date_last": 1422922493,
                    "count": 1,
                    "ip": "127.0.0.1",
                    "user_agent": "SlackWeb Mozilla\/5.0 (iPhone; CPU iPhone OS 8_1_3 like Mac OS X) AppleWebKit\/600.1.4 (KHTML, like Gecko) Version\/8.0 Mobile\/12B466 Safari\/600.1.4",
                    "isp": "BigCo ISP",
                    "country": "US",
                    "region": "CA"
                }
            ],
            "paging": {
                "count": 100,
                "total": 2,
                "page": 1,
                "pages": 1
            }
        }
    "#));
    if let Err(err) = result {
        panic!("{:?}", err);
    }
    let result = result.unwrap();
    assert_eq!(result.logins[0].username, "bob");
    assert_eq!(result.logins[1].username, "alice");
}

#[test]
fn team_info_ok_response() {
    let request = team::info("TEST_TOKEN");
    assert_eq!(request.method, "team.info");
    assert_eq!(request.token, "TEST_TOKEN");
    let result: ApiResult<team::InfoResponse> = decode_response(&parse(r#"
        {
            "ok": true,
            "team": {
                "id": "T12345",
                "name": "My Team",
                "domain": "example",
                "email_domain": "",
                "icon": {
                    "image_34": "https:\/\/...",
                    "image_44": "https:\/\/...",
                    "image_68": "https:\/\/...",
                    "image_88": "https:\/\/...",
                    "image_102": "https:\/\/...",
                    "image_132": "https:\/\/...",
                    "image_default": true
                }
            }
        }
    "#));
    if let Err(err) = result {
        panic!("{:?}", err);
    }
    let result = result.unwrap();
    assert_eq!(result.team.name, "My Team");
    assert_eq!(result.team.icon.image_default, true);
}
