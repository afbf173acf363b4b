use slack::api::{search, decode_response, ApiResult};
use slack::json::Json;

fn to_json(v: &serde_json::Value) -> Json {
    match v {
        serde_json::Value::Null => Json::Null,
        serde_json::Value::Bool(b) => Json::Bool(*b),
        serde_json::Value::Number(n) => match (n.as_i64(), n.as_u64()) {
            (Some(i), _) => Json::Int(i as i128),
            (None, Some(u)) => Json::Int(u as i128),
            _ => Json::Decimal,
        },
        serde_json::Value::String(s) => Json::Str(s.clone()),
        serde_json::Value::Array(items) => Json::Array(items.iter().map(to_json).collect()),
        serde_json::Value::Object(fields) => {
            Json::Object(fields.iter().map(|(k, v)| (k.clone(), to_json(v))).collect())
        }
    }
}

fn parse(text: &str) -> Json {
    to_json(&serde_json::from_str::<serde_json::Value>(text).unwrap())
}

#[test]
fn search_general_api_error_response() {
    let request = search::all("TEST_TOKEN", "pickleface", Some("timestamp"), Some("asc"), Some(true), Some(100), Some(1));
    assert_eq!(request.method, "search.all");
    assert_eq!(request.token, "TEST_TOKEN");
    let result: ApiResult<search::AllResponse> = decode_response(&parse(r#"{"ok": false, "err": "some_error"}"#));
    assert!(result.is_err());
}

#[test]
fn all_ok_response() {
    let request = search::all("TEST_TOKEN", "pickleface", Some("timestamp"), Some("asc"), Some(true), Some(100), Some(1));
    assert_eq!(request.method, "search.all");
    assert_eq!(request.token, "TEST_TOKEN");
    let result: ApiResult<search::AllResponse> = decode_response(&parse(r#"
        {
            "ok": true,
            "query": "Best Pickles",
            "messages": {
                "total": 1,
                "matches": [
                    {
                        "type": "message",
                        "channel": {
                            "id": "C2147483753",
                            "name": "foo"
                        },
                        "user": "U2147483709",
                        "username": "johnnytest",
                        "ts": "1359414002.000003",
                        "text": "mention test: johnnyrodgers",
                        "permalink": "https:\/\/example.slack.com\/channels\/foo\/p1359414002000003",
                        "previous_2": {
                            "user": "U2147483709",
                            "username": "johnnytest",
                            "text": "This was said before before",
                            "ts": "1359413987.000000",
                            "type": "message"
                        },
                        "previous": {
                            "user": "U2147483709",
                            "username": "johnnytest",
                            "text": "This was said before",
                            "ts": "1359414001.000000",
                            "type": "message"
                        },
                        "next": {
                            "user": "U2147483709",
                            "username": "johnnytest",
                            "text": "This was said after",
                            "ts": "1359414020.000000",
                            "type": "message"
                        },
                        "next_2": {
                            "user": "U2147483709",
                            "username": "johnnytest",
                            "text": "This was said after after",
                            "ts": "1359414021.000000",
                            "type": "message"
                        }
                    }
                ],
                "paging": {
                    "count": 100,
                    "total": 15,
                    "page": 1,
                    "pages": 1
                }
            },
            "files": {
                "total": 1,
                "matches": [
                    {
                        "id" : "F2147483862",
                        "created" : 1356032811,
                        "timestamp" : 1356032811,

                        "name" : "file.htm",
                        "title" : "My HTML file",
                        "mimetype" : "text\/plain",
                        "filetype" : "text",
                        "pretty_type": "Text",
                        "user" : "U2147483697",

                        "mode" : "hosted",
                        "editable" : true,
                        "is_external": false,
                        "external_type": "",

                        "size" : 12345,

                        "url": "https:\/\/slack-files.com\/files-pub\/T024BE7LD-F024BERPE-09acb6\/1.png",
                        "url_download": "https:\/\/slack-files.com\/files-pub\/T024BE7LD-F024BERPE-09acb6\/download\/1.png",
                        "url_private": "https:\/\/slack.com\/files-pri\/T024BE7LD-F024BERPE\/1.png",
                        "url_private_download": "https:\/\/slack.com\/files-pri\/T024BE7LD-F024BERPE\/download\/1.png",

                        "thumb_64": "https:\/\/slack-files.com\/files-tmb\/T024BE7LD-F024BERPE-c66246\/1_64.png",
                        "thumb_80": "https:\/\/slack-files.com\/files-tmb\/T024BE7LD-F024BERPE-c66246\/1_80.png",
                        "thumb_360": "https:\/\/slack-files.com\/files-tmb\/T024BE7LD-F024BERPE-c66246\/1_360.png",
                        "thumb_360_gif": "https:\/\/slack-files.com\/files-tmb\/T024BE7LD-F024BERPE-c66246\/1_360.gif",
                        "thumb_360_w": 100,
                        "thumb_360_h": 100,

                        "permalink" : "https:\/\/tinyspeck.slack.com\/files\/cal\/F024BERPE\/1.png",
                        "edit_link" : "https:\/\/tinyspeck.slack.com\/files\/cal\/F024BERPE\/1.png/edit",
                        "preview" : "&lt;!DOCTYPE html&gt;\n&lt;html&gt;\n&lt;meta charset='utf-8'&gt;",
                        "preview_highlight" : "&lt;div class=\"sssh-code\"&gt;&lt;div class=\"sssh-line\"&gt;&lt;pre&gt;&lt;!DOCTYPE html...",
                        "lines" : 123,
                        "lines_more": 118,

                        "is_public": true,
                        "public_url_shared": false,
                        "channels": ["C024BE7LT"],
                        "groups": ["G12345"],
                        "ims": ["D12345"],
                        "num_stars": 7,
                        "is_starred": true,
                        "pinned_to": ["C024BE7LT"],
                        "reactions": [
                            {
                                "name": "astonished",
                                "count": 3,
                                "users": [ "U1", "U2", "U3" ]
                            },
                            {
                                "name": "facepalm",
                                "count": 1034,
                                "users": [ "U1", "U2", "U3", "U4", "U5" ]
                            }
                        ]
                    }
                ],
                "paging": {
                    "count": 100,
                    "total": 15,
                    "page": 1,
                    "pages": 1
                }
            }
        }
    "#));
    if let Err(err) = result {
        panic!("{:?}", err);
    }
    let result = result.unwrap();
    assert_eq!(result.messages.matches[0].user, "U2147483709");
    assert_eq!(result.files.matches[0].id, "F2147483862");
}

#[test]
fn files_ok_response() {
    let request = search::files("TEST_TOKEN", "pickleface", Some("timestamp"), Some("asc"), Some(true), Some(100), Some(1));
    assert_eq!(request.method, "search.files");
    assert_eq!(request.token, "TEST_TOKEN");
    let result: ApiResult<search::FilesResponse> = decode_response(&parse(r#"
        {
            "ok": true,
            "query": "Best Pickles",
            "files": {
                "total": 1,
                "matches": [
                    {
                        "id" : "F2147483862",
                        "created" : 1356032811,
                        "timestamp" : 1356032811,

                        "name" : "file.htm",
                        "title" : "My HTML file",
                        "mimetype" : "text\/plain",
                        "filetype" : "text",
                        "pretty_type": "Text",
                        "user" : "U2147483697",

                        "mode" : "hosted",
                        "editable" : true,
                        "is_external": false,
                        "external_type": "",

                        "size" : 12345,

                        "url": "https:\/\/slack-files.com\/files-pub\/T024BE7LD-F024BERPE-09acb6\/1.png",
                        "url_download": "https:\/\/slack-files.com\/files-pub\/T024BE7LD-F024BERPE-09acb6\/download\/1.png",
                        "url_private": "https:\/\/slack.com\/files-pri\/T024BE7LD-F024BERPE\/1.png",
                        "url_private_download": "https:\/\/slack.com\/files-pri\/T024BE7LD-F024BERPE\/download\/1.png",

                        "thumb_64": "https:\/\/slack-files.com\/files-tmb\/T024BE7LD-F024BERPE-c66246\/1_64.png",
                        "thumb_80": "https:\/\/slack-files.com\/files-tmb\/T024BE7LD-F024BERPE-c66246\/1_80.png",
                        "thumb_360": "https:\/\/slack-files.com\/files-tmb\/T024BE7LD-F024BERPE-c66246\/1_360.png",
                        "thumb_360_gif": "https:\/\/slack-files.com\/files-tmb\/T024BE7LD-F024BERPE-c66246\/1_360.gif",
                        "thumb_360_w": 100,
                        "thumb_360_h": 100,

                        "permalink" : "https:\/\/tinyspeck.slack.com\/files\/cal\/F024BERPE\/1.png",
                        "edit_link" : "https:\/\/tinyspeck.slack.com\/files\/cal\/F024BERPE\/1.png/edit",
                        "preview" : "&lt;!DOCTYPE html&gt;\n&lt;html&gt;\n&lt;meta charset='utf-8'&gt;",
                        "preview_highlight" : "&lt;div class=\"sssh-code\"&gt;&lt;div class=\"sssh-line\"&gt;&lt;pre&gt;&lt;!DOCTYPE html...",
                        "lines" : 123,
                        "lines_more": 118,

                        "is_public": true,
                        "public_url_shared": false,
                        "channels": ["C024BE7LT"],
                        "groups": ["G12345"],
                        "ims": ["D12345"],
                        "num_stars": 7,
                        "is_starred": true,
                        "pinned_to": ["C024BE7LT"],
                        "reactions": [
                            {
                                "name": "astonished",
                                "count": 3,
                                "users": [ "U1", "U2", "U3" ]
                            },
                            {
                                "name": "facepalm",
                                "count": 1034,
                                "users": [ "U1", "U2", "U3", "U4", "U5" ]
                            }
                        ]
                    }
                ],
                "paging": {
                    "count": 100,
                    "total": 15,
                    "page": 1,
                    "pages": 1
                }
            }
        }
    "#));
    if let Err(err) = result {
        panic!("{:?}", err);
    }
    let result = result.unwrap();
    assert_eq!(result.files.matches[0].id, "F2147483862");
}

#[test]
fn messages_ok_response() {
    let request = search::messages("TEST_TOKEN", "pickleface", Some("timestamp"), Some("asc"), Some(true), Some(100), Some(1));
    assert_eq!(request.method, "search.messages");
    assert_eq!(request.token, "TEST_TOKEN");
    let result: ApiResult<search::MessagesResponse> = decode_response(&parse(r#"
        {
            "ok": true,
            "query": "Best Pickles",
            "messages": {
                "total": 1,
                "matches": [
                    {
                        "type": "message",
                        "channel": {
                            "id": "C2147483753",
                            "name": "foo"
                        },
                        "user": "U2147483709",
                        "username": "johnnytest",
                        "ts": "1359414002.000003",
                        "text": "mention test: johnnyrodgers",
                        "permalink": "https:\/\/example.slack.com\/channels\/foo\/p1359414002000003",
                        "previous_2": {
                            "user": "U2147483709",
                            "username": "johnnytest",
                            "text": "This was said before before",
                            "ts": "1359413987.000000",
                            "type": "message"
                        },
                        "previous": {
                            "user": "U2147483709",
                            "username": "johnnytest",
                            "text": "This was said before",
                            "ts": "1359414001.000000",
                            "type": "message"
                        },
                        "next": {
                            "user": "U2147483709",
                            "username": "johnnytest",
                            "text": "This was said after",
                            "ts": "1359414020.000000",
                            "type": "message"
                        },
                        "next_2": {
                            "user": "U2147483709",
                            "username": "johnnytest",
                            "text": "This was said after after",
                            "ts": "1359414021.000000",
                            "type": "message"
                        }
                    }
                ],
                "paging": {
                    "count": 100,
                    "total": 15,
                    "page": 1,
                    "pages": 1
                }
            }
        }
    "#));
    if let Err(err) = result {
        panic!("{:?}", err);
    }
    assert_eq!(result.unwrap().messages.matches[0].user, "U2147483709");
}
