use slack::api::{reactions, decode_response, ApiResult, Item, Message};
use slack::json::Json;

fn to_json(v: &serde_json::Value) -> Json {
    match v {
        serde_json::Value::Null => Json::Null,
        serde_json::Value::Bool(b) => Json::Bool(*b),
        serde_json::Value::Number(n) => match (n.as_i64(), n.as_u64()) {
            (Some(i), _) => Json::Int(i as i128),
            (None, Some(u)) => Json::Int(u as i128),
            _ => Json::Decimal,
        },
        serde_json::Value::String(s) => Json::Str(s.clone()),
        serde_json::Value::Array(items) => Json::Array(items.iter().map(to_json).collect()),
        serde_json::Value::Object(fields) => {
            Json::Object(fields.iter().map(|(k, v)| (k.clone(), to_json(v))).collect())
        }
    }
}

fn parse(text: &str) -> Json {
    to_json(&serde_json::from_str::<serde_json::Value>(text).unwrap())
}

#[test]
fn reactions_general_api_error_response() {
    let request = reactions::add("TEST_TOKEN", "thumbsup", None, None, Some("C1234567890"), Some("1234567890.123456"));
    assert_eq!(request.method, "reactions.add");
    assert_eq!(request.token, "TEST_TOKEN");
    let result: ApiResult<reactions::AddResponse> = decode_response(&parse(r#"{"ok": false, "err": "some_error"}"#));
    assert!(result.is_err());
}

#[test]
fn reactions_add_ok_response() {
    let request = reactions::add("TEST_TOKEN", "thumbsup", None, None, Some("C1234567890"), Some("1234567890.123456"));
    assert_eq!(request.method, "reactions.add");
    assert_eq!(request.token, "TEST_TOKEN");
    let result: ApiResult<reactions::AddResponse> = decode_response(&parse(r#"{"ok": true}"#));
    if let Err(err) = result {
        panic!("{:?}", err);
    }
}

#[test]
fn get_ok_response() {
    let request = reactions::get("TEST_TOKEN", None, None, Some("C1234567890"), Some("1234567890.123456"), None);
    assert_eq!(request.method, "reactions.get");
    assert_eq!(request.token, "TEST_TOKEN");
    let result: ApiResult<reactions::GetResponse> = decode_response(&parse(r#"{
            "ok": true,
            "type": "message",
            "channel": "C1234567890",
            "message": {
                "type": "message",
                "channel": "C1234567890",
                "user": "U2147483697",
                "text": "Hello world",
                "ts": "1234567890.123456",
                "reactions": [
                    {
                        "name": "astonished",
                        "count": 3,
                        "users": [ "U1", "U2", "U3" ]
                    },
                    {
                        "name": "clock1",
                        "count": 2,
                        "users": [ "U1", "U2", "U3" ]
                    }
                ]
            }
        }"#));
    if let Err(err) = result {
        panic!("{:?}", err);
    }
    match result.unwrap() {
        Item::Message { channel: c, message: m } => {
            assert_eq!(c, "C1234567890");
            match *m {
                Message::Standard { ts: _, channel: _, user: _, text, is_starred: _, pinned_to: _, reactions, edited: _, attachments: _ } => {
                    assert_eq!(text.unwrap(), "Hello world");
                    assert_eq!(reactions.unwrap()[0].name, "astonished");
                },
                _ => panic!("Message decoded into incorrect variant.")
            }
        },
        _ => panic!("Item decoded into incorrect variant.")
    };
}

#[test]
fn reactions_list_ok_response() {
    let request = reactions::list("TEST_TOKEN", None, None, None, None);
    assert_eq!(request.method, "reactions.list");
    assert_eq!(request.token, "TEST_TOKEN");
    let result: ApiResult<reactions::ListResponse> = decode_response(&parse(r#"{
            "ok": true,
            "items": [
                {
                    "type": "message",
                    "channel": "C1234567890",
                    "message": {
                        "type": "message",
                        "channel": "C1234567890",
                        "user": "U2147483697",
                        "text": "Hello world",
                        "ts": "1234567890.123456",
                        "reactions": [
                            {
                                "name": "astonished",
                                "count": 3,
                                "users": [ "U1", "U2", "U3" ]
                            },
                            {
                                "name": "clock1",
                                "count": 2,
                                "users": [ "U1", "U2", "U3" ]
                            }
                        ]
                    }
                },
                {
                    "type": "file",
                    "file": {
                        "id": "F12345678",
                        "created": 1444929467,
                        "timestamp": 1444929467,
                        "name": "test_img.png",
                        "title": "test_img",
                        "mimetype": "image\/png",
                        "filetype": "png",
                        "pretty_type": "PNG",
                        "user": "U12345678",
                        "editable": false,
                        "size": 16153,
                        "mode": "hosted",
                        "is_external": false,
                        "external_type": "",
                        "is_public": true,
                        "public_url_shared": false,
                        "display_as_bot": false,
                        "username": "",
                        "url": "https:\/\/slack-files.com\/files-pub\/PUBLIC-TEST-GUID\/test_img.png",
                        "url_download": "https:\/\/slack-files.com\/files-pub\/PUBLIC-TEST-GUID\/download\/test_img.png",
                        "url_private": "https:\/\/files.slack.com\/files-pri\/PRIVATE-ID\/test_img.png",
                        "url_private_download": "https:\/\/files.slack.com\/files-pri\/PRIVATE-ID\/download\/test_img.png",
                        "thumb_64": "https:\/\/slack-files.com\/files-tmb\/PRIVATE-TEST-GUID\/test_img_64.png",
                        "thumb_80": "https:\/\/slack-files.com\/files-tmb\/PRIVATE-TEST-GUID\/test_img_80.png",
                        "thumb_360": "https:\/\/slack-files.com\/files-tmb\/PRIVATE-TEST-GUID\/test_img_360.png",
                        "thumb_360_w": 360,
                        "thumb_360_h": 28,
                        "thumb_480": "https:\/\/slack-files.com\/files-tmb\/PRIVATE-TEST-GUID\/test_img_480.png",
                        "thumb_480_w": 480,
                        "thumb_480_h": 37,
                        "thumb_160": "https:\/\/slack-files.com\/files-tmb\/PRIVATE-TEST-GUID\/test_img_160.png",
                        "thumb_720": "https:\/\/slack-files.com\/files-tmb\/PRIVATE-TEST-GUID\/test_img_720.png",
                        "thumb_720_w": 720,
                        "thumb_720_h": 56,
                        "image_exif_rotation": 1,
                        "original_w": 895,
                        "original_h": 69,
                        "permalink": "https:\/\/test-team.slack.com\/files\/testuser\/F12345678\/test_img.png",
                        "permalink_public": "https:\/\/slack-files.com\/PUBLIC-TEST-GUID",
                        "channels": [
                            "C12345678"
                        ],
                        "groups": [

                        ],
                        "ims": [

                        ],
                        "comments_count": 0,
                        "reactions": [
                            {
                                "name": "thumbsup",
                                "count": 1,
                                "users": [ "U1" ]
                            }
                        ]
                    }
                }
            ],
            "paging": {
                "count": 100,
                "total": 5,
                "page": 1,
                "pages": 1
            }
        }"#));
    if let Err(err) = result {
        panic!("{:?}", err);
    }
    match result.unwrap().items[1] {
        Item::File { file: ref f } => {
            assert_eq!(f.id, "F12345678");
            assert_eq!(f.reactions.as_ref().unwrap()[0].name, "thumbsup");
        },
        _ => panic!("Item decoded into incorrect variant.")
    };
}

#[test]
fn reactions_remove_ok_response() {
    let request = reactions::remove("TEST_TOKEN", "thumbsup", None, None, Some("C1234567890"), Some("1234567890.123456"));
    assert_eq!(request.method, "reactions.remove");
    assert_eq!(request.token, "TEST_TOKEN");
    let result: ApiResult<reactions::RemoveResponse> = decode_response(&parse(r#"{"ok": true}"#));
    if let Err(err) = result {
        panic!("{:?}", err);
    }
}
