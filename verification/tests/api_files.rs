use slack::api::{files, decode_response, ApiResult};
use slack::json::Json;

fn to_json(v: &serde_json::Value) -> Json {
    match v {
        serde_json::Value::Null => Json::Null,
        serde_json::Value::Bool(b) => Json::Bool(*b),
        serde_json::Value::Number(n) => match (n.as_i64(), n.as_u64()) {
            (Some(i), _) => Json::Int(i as i128),
            (None, Some(u)) => Json::Int(u as i128),
            _ => Json::Decimal,
        },
        serde_json::Value::String(s) => Json::Str(s.clone()),
        serde_json::Value::Array(items) => Json::Array(items.iter().map(to_json).collect()),
        serde_json::Value::Object(fields) => {
            Json::Object(fields.iter().map(|(k, v)| (k.clone(), to_json(v))).collect())
        }
    }
}

fn parse(text: &str) -> Json {
    to_json(&serde_json::from_str::<serde_json::Value>(text).unwrap())
}

#[test]
fn files_general_api_error_response() {
    let request = files::delete("TEST_TOKEN", "F12345678");
    assert_eq!(request.method, "files.delete");
    assert_eq!(request.token, "TEST_TOKEN");
    let result: ApiResult<files::DeleteResponse> = decode_response(&parse(r#"{"ok": false, "err": "some_error"}"#));
    assert!(result.is_err());
}

#[test]
fn files_delete_ok_response() {
    let request = files::delete("TEST_TOKEN", "F12345678");
    assert_eq!(request.method, "files.delete");
    assert_eq!(request.token, "TEST_TOKEN");
    let result: ApiResult<files::DeleteResponse> = decode_response(&parse(r#"{"ok": true}"#));
    if let Err(err) = result {
        panic!("{:?}", err);
    }
}

#[test]
fn files_info_ok_response() {
    let request = files::info("TEST_TOKEN", "F12345678", None, None);
    assert_eq!(request.method, "files.info");
    assert_eq!(request.token, "TEST_TOKEN");
    let result: ApiResult<files::InfoResponse> = decode_response(&parse(r#"{
        "ok": true,
        "file": {
            "id" : "F2147483862",
            "timestamp" : 1356032811,

            "name" : "file.htm",
            "title" : "My HTML file",
            "mimetype" : "text\/plain",
            "filetype" : "text",
            "pretty_type": "Text",
            "user" : "U2147483697",

            "mode" : "hosted",
            "editable" : true,
            "is_external": false,
            "external_type": "",

            "size" : 12345,

            "url": "https:\/\/slack-files.com\/files-pub\/T024BE7LD-F024BERPE-09acb6\/1.png",
            "url_download": "https:\/\/slack-files.com\/files-pub\/T024BE7LD-F024BERPE-09acb6\/download\/1.png",
            "url_private": "https:\/\/slack.com\/files-pri\/T024BE7LD-F024BERPE\/1.png",
            "url_private_download": "https:\/\/slack.com\/files-pri\/T024BE7LD-F024BERPE\/download\/1.png",

            "thumb_64": "https:\/\/slack-files.com\/files-tmb\/T024BE7LD-F024BERPE-c66246\/1_64.png",
            "thumb_80": "https:\/\/slack-files.com\/files-tmb\/T024BE7LD-F024BERPE-c66246\/1_80.png",
            "thumb_360": "https:\/\/slack-files.com\/files-tmb\/T024BE7LD-F024BERPE-c66246\/1_360.png",
            "thumb_360_gif": "https:\/\/slack-files.com\/files-tmb\/T024BE7LD-F024BERPE-c66246\/1_360.gif",
            "thumb_360_w": 100,
            "thumb_360_h": 100,

            "permalink" : "https:\/\/tinyspeck.slack.com\/files\/cal\/F024BERPE\/1.png",
            "edit_link" : "https:\/\/tinyspeck.slack.com\/files\/cal\/F024BERPE\/1.png/edit",
            "preview" : "&lt;!DOCTYPE html&gt;\n&lt;html&gt;\n&lt;meta charset='utf-8'&gt;",
            "preview_highlight" : "&lt;div class=\"sssh-code\"&gt;&lt;div class=\"sssh-line\"&gt;&lt;pre&gt;&lt;!DOCTYPE html...",
            "lines" : 123,
            "lines_more": 118,

            "is_public": true,
            "public_url_shared": false,
            "channels": ["C024BE7LT"],
            "groups": ["G12345"],
            "initial_comment": {
                "id": "Fc027BN9L9",
                "timestamp": 1356032811,
                "user": "U2147483697",
                "comment": "This is a comment"
            },
            "num_stars": 7,
            "is_starred": true
        },
        "comments": [
            {
                "id": "Fc027BN9L9",
                "timestamp": 1356032811,
                "user": "U2147483697",
                "comment": "This is a comment"
            }
        ],
        "paging": {
            "count": 100,
            "total": 2,
            "page": 1,
            "pages": 0
        }
    }"#));
    if let Err(err) = result {
        panic!("{:?}", err);
    }
    assert_eq!(result.unwrap().file.id, "F2147483862");
}

#[test]
fn files_list_ok_response() {
    let request = files::list("TEST_TOKEN", None, None, None, None, None, None);
    assert_eq!(request.method, "files.list");
    assert_eq!(request.token, "TEST_TOKEN");
    let result: ApiResult<files::ListResponse> = decode_response(&parse(r#"{
        "ok": true,
        "files": [
            {
                "id" : "F2147483862",
                "timestamp" : 1356032811,

                "name" : "file.htm",
                "title" : "My HTML file",
                "mimetype" : "text\/plain",
                "filetype" : "text",
                "pretty_type": "Text",
                "user" : "U2147483697",

                "mode" : "hosted",
                "editable" : true,
                "is_external": false,
                "external_type": "",

                "size" : 12345,

                "url": "https:\/\/slack-files.com\/files-pub\/T024BE7LD-F024BERPE-09acb6\/1.png",
                "url_download": "https:\/\/slack-files.com\/files-pub\/T024BE7LD-F024BERPE-09acb6\/download\/1.png",
                "url_private": "https:\/\/slack.com\/files-pri\/T024BE7LD-F024BERPE\/1.png",
                "url_private_download": "https:\/\/slack.com\/files-pri\/T024BE7LD-F024BERPE\/download\/1.png",

                "thumb_64": "https:\/\/slack-files.com\/files-tmb\/T024BE7LD-F024BERPE-c66246\/1_64.png",
                "thumb_80": "https:\/\/slack-files.com\/files-tmb\/T024BE7LD-F024BERPE-c66246\/1_80.png",
                "thumb_360": "https:\/\/slack-files.com\/files-tmb\/T024BE7LD-F024BERPE-c66246\/1_360.png",
                "thumb_360_gif": "https:\/\/slack-files.com\/files-tmb\/T024BE7LD-F024BERPE-c66246\/1_360.gif",
                "thumb_360_w": 100,
                "thumb_360_h": 100,

                "permalink" : "https:\/\/tinyspeck.slack.com\/files\/cal\/F024BERPE\/1.png",
                "edit_link" : "https:\/\/tinyspeck.slack.com\/files\/cal\/F024BERPE\/1.png/edit",
                "preview" : "&lt;!DOCTYPE html&gt;\n&lt;html&gt;\n&lt;meta charset='utf-8'&gt;",
                "preview_highlight" : "&lt;div class=\"sssh-code\"&gt;&lt;div class=\"sssh-line\"&gt;&lt;pre&gt;&lt;!DOCTYPE html...",
                "lines" : 123,
                "lines_more": 118,

                "is_public": true,
                "public_url_shared": false,
                "channels": ["C024BE7LT"],
                "groups": ["G12345"],
                "initial_comment": {
                    "id": "Fc027BN9L9",
                    "timestamp": 1356032811,
                    "user": "U2147483697",
                    "comment": "This is a comment"
                },
                "num_stars": 7,
                "is_starred": true
            },
            {
                "id": "F12345678",
                "created": 1444929467,
                "timestamp": 1444929467,
                "name": "test_img.png",
                "title": "test_img",
                "mimetype": "image\/png",
                "filetype": "png",
                "pretty_type": "PNG",
                "user": "U12345678",
                "editable": false,
                "size": 16153,
                "mode": "hosted",
                "is_external": false,
                "external_type": "",
                "is_public": true,
                "public_url_shared": false,
                "display_as_bot": false,
                "username": "",
                "url": "https:\/\/slack-files.com\/files-pub\/PUBLIC-TEST-GUID\/test_img.png",
                "url_download": "https:\/\/slack-files.com\/files-pub\/PUBLIC-TEST-GUID\/download\/test_img.png",
                "url_private": "https:\/\/files.slack.com\/files-pri\/PRIVATE-ID\/test_img.png",
                "url_private_download": "https:\/\/files.slack.com\/files-pri\/PRIVATE-ID\/download\/test_img.png",
                "thumb_64": "https:\/\/slack-files.com\/files-tmb\/PRIVATE-TEST-GUID\/test_img_64.png",
                "thumb_80": "https:\/\/slack-files.com\/files-tmb\/PRIVATE-TEST-GUID\/test_img_80.png",
                "thumb_360": "https:\/\/slack-files.com\/files-tmb\/PRIVATE-TEST-GUID\/test_img_360.png",
                "thumb_360_w": 360,
                "thumb_360_h": 28,
                "thumb_480": "https:\/\/slack-files.com\/files-tmb\/PRIVATE-TEST-GUID\/test_img_480.png",
                "thumb_480_w": 480,
                "thumb_480_h": 37,
                "thumb_160": "https:\/\/slack-files.com\/files-tmb\/PRIVATE-TEST-GUID\/test_img_160.png",
                "thumb_720": "https:\/\/slack-files.com\/files-tmb\/PRIVATE-TEST-GUID\/test_img_720.png",
                "thumb_720_w": 720,
                "thumb_720_h": 56,
                "image_exif_rotation": 1,
                "original_w": 895,
                "original_h": 69,
                "permalink": "https:\/\/test-team.slack.com\/files\/testuser\/F12345678\/test_img.png",
                "permalink_public": "https:\/\/slack-files.com\/PUBLIC-TEST-GUID",
                "channels": [
                    "C12345678"
                ],
                "groups": [

                ],
                "ims": [

                ],
                "comments_count": 0
            }
        ],
        "paging": {
            "count": 100,
            "total": 295,
            "page": 1,
            "pages": 3
        }
    }"#));
    if let Err(err) = result {
        panic!("{:?}", err);
    }
    assert_eq!(result.unwrap().files[0].id, "F2147483862");
}
