use slack::api::{rtm, decode_response, ApiResult};
use slack::json::Json;

fn to_json(v: &serde_json::Value) -> Json {
    match v {
        serde_json::Value::Null => Json::Null,
        serde_json::Value::Bool(b) => Json::Bool(*b),
        serde_json::Value::Number(n) => match (n.as_i64(), n.as_u64()) {
            (Some(i), _) => Json::Int(i as i128),
            (None, Some(u)) => Json::Int(u as i128),
            _ => Json::Decimal,
        },
        serde_json::Value::String(s) => Json::Str(s.clone()),
        serde_json::Value::Array(items) => Json::Array(items.iter().map(to_json).collect()),
        serde_json::Value::Object(fields) => {
            Json::Object(fields.iter().map(|(k, v)| (k.clone(), to_json(v))).collect())
        }
    }
}

fn parse(text: &str) -> Json {
    to_json(&serde_json::from_str::<serde_json::Value>(text).unwrap())
}

#[test]
fn rtm_general_api_error_response() {
    let request = rtm::start("TEST_TOKEN", None, None);
    assert_eq!(request.method, "rtm.start");
    assert_eq!(request.token, "TEST_TOKEN");
    let result: ApiResult<rtm::StartResponse> = decode_response(&parse(r#"{"ok": false, "err": "some_error"}"#));
    assert!(result.is_err());
}

#[test]
fn start_ok_response() {
    let request = rtm::start("TEST_TOKEN", Some(true), None);
    assert_eq!(request.method, "rtm.start");
    assert_eq!(request.token, "TEST_TOKEN");
    let result: ApiResult<rtm::StartResponse> = decode_response(&parse(r#"
        {
            "ok": true,
            "url": "wss:\/\/ms9.slack-msgs.com\/websocket\/7I5yBpcvk",
            "self": {
                "id": "U023BECGF",
                "name": "bobby",
                "prefs": {},
                "created": 1402463766,
                "manual_presence": "active"
            },
            "team": {
                "id": "T024BE7LD",
                "name": "Example Team",
                "email_domain": "",
                "domain": "example",
                "msg_edit_window_mins": -1,
                "over_storage_limit": false,
                "prefs": {},
                "plan": "std"
            },
            "users": [
                {
                    "id": "U023BECGF",
                    "name": "bobby",
                    "deleted": false,
                    "color": "9f69e7",
                    "profile": {
                        "first_name": "Bobby",
                        "last_name": "Tables",
                        "real_name": "Bobby Tables",
                        "email": "bobby@slack.com",
                        "skype": "my-skype-name",
                        "phone": "+1 (123) 456 7890",
                        "image_24": "https:\/\/...",
                        "image_32": "https:\/\/...",
                        "image_48": "https:\/\/...",
                        "image_72": "https:\/\/...",
                        "image_192": "https:\/\/..."
                    },
                    "is_admin": true,
                    "is_owner": true,
                    "is_primary_owner": true,
                    "is_restricted": false,
                    "is_ultra_restricted": false,
                    "has_2fa": false,
                    "two_factor_type": "sms",
                    "has_files": true
                }
            ],
            "channels": [
                {
                    "id": "C024BE91L",
                    "name": "fun",
                    "is_channel": true,
                    "created": 1360782804,
                    "creator": "U024BE7LH",
                    "is_archived": false,
                    "is_general": false,
                    "members": [
                        "U024BE7LH"
                    ],
                    "topic": {
                        "value": "Fun times",
                        "creator": "U024BE7LV",
                        "last_set": 1369677212
                    },
                    "purpose": {
                        "value": "This channel is for fun",
                        "creator": "U024BE7LH",
                        "last_set": 1360782804
                    },
                    "is_member": true,
                    "last_read": "1401383885.000061",
                    "latest": "1401383885.000061",
                    "unread_count": 0,
                    "unread_count_display": 0
                }
            ],
            "groups": [
                {
                    "id": "G024BE91L",
                    "name": "secretplans",
                    "is_group": true,
                    "created": 1360782804,
                    "creator": "U024BE7LH",
                    "is_archived": false,
                    "members": [
                        "U024BE7LH"
                    ],
                    "topic": {
                        "value": "Secret plans on hold",
                        "creator": "U024BE7LV",
                        "last_set": 1369677212
                    },
                    "purpose": {
                        "value": "Discuss secret plans that no-one else should know",
                        "creator": "U024BE7LH",
                        "last_set": 1360782804
                    },
                    "last_read": "1401383885.000061",
                    "latest": "1401383885.000061",
                    "unread_count": 0,
                    "unread_count_display": 0
                }
            ],
            "ims": [
                {
                    "id": "D024BFF1M",
                    "is_im": true,
                    "user": "U024BE7LH",
                    "created": 1360782804,
                    "is_user_deleted": false
                }
            ],
            "bots": [
                {
                    "id": "B87654321",
                    "deleted": false,
                    "name": "gdrive"
                },
                {
                    "id": "B12345678",
                    "deleted": false,
                    "name": "bot",
                    "icons": {
                        "image_48": "https:\/\/slack.global.ssl.fastly.net\/BOT_ID\/img\/services\/bots_48.png"
                    }
                }
            ]
        }
    "#));
    if let Err(err) = result {
        panic!("{:?}", err);
    }
    let result = result.unwrap();
    assert_eq!(result.url, "wss://ms9.slack-msgs.com/websocket/7I5yBpcvk");
    assert_eq!(result.self_data.id, "U023BECGF");
    assert_eq!(result.team.id, "T024BE7LD");
    assert_eq!(result.users[0].id, "U023BECGF");
    assert_eq!(result.channels[0].id, "C024BE91L");
    assert_eq!(result.groups[0].id, "G024BE91L");
    assert_eq!(result.ims[0].id, "D024BFF1M");
    assert_eq!(result.bots[0].id, "B87654321");
}
