use slack::api::{users, decode_response, ApiResult};
use slack::json::Json;

fn to_json(v: &serde_json::Value) -> Json {
    match v {
        serde_json::Value::Null => Json::Null,
        serde_json::Value::Bool(b) => Json::Bool(*b),
        serde_json::Value::Number(n) => match (n.as_i64(), n.as_u64()) {
            (Some(i), _) => Json::Int(i as i128),
            (None, Some(u)) => Json::Int(u as i128),
            _ => Json::Decimal,
        },
        serde_json::Value::String(s) => Json::Str(s.clone()),
        serde_json::Value::Array(items) => Json::Array(items.iter().map(to_json).collect()),
        serde_json::Value::Object(fields) => {
            Json::Object(fields.iter().map(|(k, v)| (k.clone(), to_json(v))).collect())
        }
    }
}

fn parse(text: &str) -> Json {
    to_json(&serde_json::from_str::<serde_json::Value>(text).unwrap())
}

#[test]
fn users_general_api_error_response() {
    let request = users::get_presence("TEST_TOKEN", "U12345678");
    assert_eq!(request.method, "users.getPresence");
    assert_eq!(request.token, "TEST_TOKEN");
    let result: ApiResult<users::GetPresenceResponse> = decode_response(&parse(r#"{"ok": false, "err": "some_error"}"#));
    assert!(result.is_err());
}

#[test]
fn get_presence_ok_response() {
    let request = users::get_presence("TEST_TOKEN", "U12345678");
    assert_eq!(request.method, "users.getPresence");
    assert_eq!(request.token, "TEST_TOKEN");
    let result: ApiResult<users::GetPresenceResponse> = decode_response(&parse(r#"
        {
            "ok": true,
            "presence": "active"
        }
    "#));
    if let Err(err) = result {
        panic!("{:?}", err);
    }
    assert_eq!(result.unwrap().presence, "active");
}

#[test]
fn get_presence_authed_user_ok_response() {
    let request = users::get_presence("TEST_TOKEN", "U12345678");
    assert_eq!(request.method, "users.getPresence");
    assert_eq!(request.token, "TEST_TOKEN");
    let result: ApiResult<users::GetPresenceResponse> = decode_response(&parse(r#"
        {
            "ok": true,
            "presence": "active",
            "online": true,
            "auto_away": false,
            "manual_away": false,
            "connection_count": 1,
            "last_activity": 1419027078
        }
    "#));
    if let Err(err) = result {
        panic!("{:?}", err);
    }
    let result = result.unwrap();
    assert_eq!(result.presence, "active");
    assert_eq!(result.last_activity.unwrap(), 1419027078);
}

#[test]
fn users_info_ok_response() {
    let request = users::info("TEST_TOKEN", "U12345678");
    assert_eq!(request.method, "users.info");
    assert_eq!(request.token, "TEST_TOKEN");
    let result: ApiResult<users::InfoResponse> = decode_response(&parse(r#"
        {
            "ok": true,
            "user": {
                "id": "U023BECGF",
                "name": "bobby",
                "deleted": false,
                "color": "9f69e7",
                "profile": {
                    "first_name": "Bobby",
                    "last_name": "Tables",
                    "real_name": "Bobby Tables",
                    "email": "bobby@slack.com",
                    "skype": "my-skype-name",
                    "phone": "+1 (123) 456 7890",
                    "image_24": "https:\/\/...",
                    "image_32": "https:\/\/...",
                    "image_48": "https:\/\/...",
                    "image_72": "https:\/\/...",
                    "image_192": "https:\/\/..."
                },
                "is_admin": true,
                "is_owner": true,
                "has_2fa": true,
                "has_files": true
            }
        }
    "#));
    if let Err(err) = result {
        panic!("{:?}", err);
    }
    let result = result.unwrap();
    assert_eq!(result.user.id, "U023BECGF");
    assert_eq!(result.user.profile.email.as_ref().unwrap(),
               "bobby@slack.com");
}

#[test]
fn users_list_ok_response() {
    let request = users::list("TEST_TOKEN", None);
    assert_eq!(request.method, "users.list");
    assert_eq!(request.token, "TEST_TOKEN");
    let result: ApiResult<users::ListResponse> = decode_response(&parse(r#"
        {
            "ok": true,
            "members": [
                {
                    "id": "U023BECGF",
                    "name": "bobby",
                    "deleted": false,
                    "color": "9f69e7",
                    "profile": {
                        "first_name": "Bobby",
                        "last_name": "Tables",
                        "real_name": "Bobby Tables",
                        "email": "bobby@slack.com",
                        "skype": "my-skype-name",
                        "phone": "+1 (123) 456 7890",
                        "image_24": "https:\/\/...",
                        "image_32": "https:\/\/...",
                        "image_48": "https:\/\/...",
                        "image_72": "https:\/\/...",
                        "image_192": "https:\/\/..."
                    },
                    "is_admin": true,
                    "is_owner": true,
                    "has_2fa": true,
                    "has_files": true
                },
                {
                    "id": "U12345678",
                    "name": "alice",
                    "deleted": false,
                    "color": "9f69e7",
                    "profile": {
                        "first_name": "Alice",
                        "last_name": "Aardvark",
                        "real_name": "Alice Aardvark",
                        "email": "alice@slack.com",
                        "skype": "my-skype-name",
                        "phone": "+1 (123) 456 7890",
                        "image_24": "https:\/\/...",
                        "image_32": "https:\/\/...",
                        "image_48": "https:\/\/...",
                        "image_72": "https:\/\/...",
                        "image_192": "https:\/\/..."
                    },
                    "is_admin": true,
                    "is_owner": true,
                    "has_2fa": true,
                    "has_files": true
                }
            ]
        }
    "#));
    if let Err(err) = result {
        panic!("{:?}", err);
    }
    let result = result.unwrap();
    assert_eq!(result.members[1].id, "U12345678");
    assert_eq!(result.members[0].profile.email.as_ref().unwrap(),
               "bobby@slack.com");
}

#[test]
fn set_active_ok_response() {
    let request = users::set_active("TEST_TOKEN");
    assert_eq!(request.method, "users.setActive");
    assert_eq!(request.token, "TEST_TOKEN");
    let result: ApiResult<users::SetActiveResponse> = decode_response(&parse(r#"{"ok": true}"#));
    if let Err(err) = result {
        panic!("{:?}", err);
    }
}

#[test]
fn set_presence_ok_response() {
    let request = users::set_presence("TEST_TOKEN", "active");
    assert_eq!(request.method, "users.setPresence");
    assert_eq!(request.token, "TEST_TOKEN");
    let result: ApiResult<users::SetPresenceResponse> = decode_response(&parse(r#"{"ok": true}"#));
    if let Err(err) = result {
        panic!("{:?}", err);
    }
}
