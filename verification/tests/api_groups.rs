use slack::api::{groups, decode_response, ApiResult, Message};
use slack::json::Json;

fn to_json(v: &serde_json::Value) -> Json {
    match v {
        serde_json::Value::Null => Json::Null,
        serde_json::Value::Bool(b) => Json::Bool(*b),
        serde_json::Value::Number(n) => match (n.as_i64(), n.as_u64()) {
            (Some(i), _) => Json::Int(i as i128),
            (None, Some(u)) => Json::Int(u as i128),
            _ => Json::Decimal,
        },
        serde_json::Value::String(s) => Json::Str(s.clone()),
        serde_json::Value::Array(items) => Json::Array(items.iter().map(to_json).collect()),
        serde_json::Value::Object(fields) => {
            Json::Object(fields.iter().map(|(k, v)| (k.clone(), to_json(v))).collect())
        }
    }
}

fn parse(text: &str) -> Json {
    to_json(&serde_json::from_str::<serde_json::Value>(text).unwrap())
}

#[test]
fn groups_general_api_error_response() {
    let request = groups::info("TEST_TOKEN", "G12345678");
    assert_eq!(request.method, "groups.info");
    assert_eq!(request.token, "TEST_TOKEN");
    let result: ApiResult<groups::InfoResponse> = decode_response(&parse(r#"{"ok": false, "err": "some_error"}"#));
    assert!(result.is_err());
}

#[test]
fn groups_archive_ok_response() {
    let request = groups::archive("TEST_TOKEN", "G12345678");
    assert_eq!(request.method, "groups.archive");
    assert_eq!(request.token, "TEST_TOKEN");
    let result: ApiResult<groups::ArchiveResponse> = decode_response(&parse(r#"{"ok": true}"#));
    if let Err(err) = result {
        panic!("{:?}", err);
    }
}

#[test]
fn groups_close_ok_response() {
    let request = groups::close("TEST_TOKEN", "G12345678");
    assert_eq!(request.method, "groups.close");
    assert_eq!(request.token, "TEST_TOKEN");
    let result: ApiResult<groups::CloseResponse> = decode_response(&parse(r#"{"ok": true}"#));
    if let Err(err) = result {
        panic!("{:?}", err);
    }
}

#[test]
fn groups_close_already_closed_ok_response() {
    let request = groups::close("TEST_TOKEN", "G12345678");
    assert_eq!(request.method, "groups.close");
    assert_eq!(request.token, "TEST_TOKEN");
    let result: ApiResult<groups::CloseResponse> = decode_response(&parse(r#"{
            "ok": true,
            "no_op": true,
            "already_closed": true
        }"#));
    if let Err(err) = result {
        panic!("{:?}", err);
    }
    assert_eq!(result.unwrap().already_closed.unwrap(), true);
}

#[test]
fn groups_create_ok_response() {
    let request = groups::create("TEST_TOKEN", "G12345678");
    assert_eq!(request.method, "groups.create");
    assert_eq!(request.token, "TEST_TOKEN");
    let result: ApiResult<groups::CreateResponse> = decode_response(&parse(r#"{
            "ok": true,
            "group": {
                "id": "G12345678",
                "name": "secretplans",
                "is_group": true,
                "created": 1360782804,
                "creator": "U024BE7LH",
                "is_archived": false,
                "is_open": true,
                "last_read": "0000000000.000000",
                "latest": null,
                "unread_count": 0,
                "unread_count_display": 0,
                "members": [
                    "U024BE7LH"
                ],
                "topic": {
                    "value": "Secret plans on hold",
                    "creator": "U024BE7LV",
                    "last_set": 1369677212
                },
                "purpose": {
                    "value": "Discuss secret plans that no-one else should know",
                    "creator": "U024BE7LH",
                    "last_set": 1360782804
                }
            }
        }"#));
    if let Err(err) = result {
        panic!("{:?}", err);
    }
    assert!(result.unwrap().group.id == "G12345678");
}

#[test]
fn create_child_ok_response() {
    let request = groups::create_child("TEST_TOKEN", "G12345678");
    assert_eq!(request.method, "groups.createChild");
    assert_eq!(request.token, "TEST_TOKEN");
    let result: ApiResult<groups::CreateChildResponse> = decode_response(&parse(r#"{
            "ok": true,
            "group": {
                "id": "G12345678",
                "name": "secretplans",
                "is_group": true,
                "created": 1360782804,
                "creator": "U024BE7LH",
                "is_archived": false,
                "is_open": true,
                "last_read": "0000000000.000000",
                "latest": null,
                "unread_count": 0,
                "unread_count_display": 0,
                "members": [
                    "U024BE7LH"
                ],
                "topic": {
                    "value": "Secret plans on hold",
                    "creator": "U024BE7LV",
                    "last_set": 1369677212
                },
                "purpose": {
                    "value": "Discuss secret plans that no-one else should know",
                    "creator": "U024BE7LH",
                    "last_set": 1360782804
                }
            }
        }"#));
    if let Err(err) = result {
        panic!("{:?}", err);
    }
    assert!(result.unwrap().group.id == "G12345678");
}

#[test]
fn groups_history_ok_response() {
    let request = groups::history("TEST_TOKEN", "G12345678", None, None, None, None);
    assert_eq!(request.method, "groups.history");
    assert_eq!(request.token, "TEST_TOKEN");
    let result: ApiResult<groups::HistoryResponse> = decode_response(&parse(r#"{
            "ok": true,
            "latest": "1358547726.000003",
            "messages": [
                {
                    "type": "message",
                    "ts": "1358546515.000008",
                    "user": "U2147483896",
                    "text": "Hello"
                },
                {
                    "type": "message",
                    "ts": "1358546515.000007",
                    "user": "U2147483896",
                    "text": "World",
                    "is_starred": true
                },
                {
                    "type": "something_else",
                    "ts": "1358546515.000007",
                    "wibblr": true
                }
            ],
            "has_more": false
        }"#));
    if let Err(err) = result {
        panic!("{:?}", err);
    }
    match result.unwrap().messages.into_iter().next().unwrap() {
        Message::Standard { ts: _, channel: _, user: _, text, is_starred: _, pinned_to: _, reactions: _, edited: _, attachments: _ } => {
            assert_eq!(text.unwrap(), "Hello")
        },
        _ => panic!("Message decoded into incorrect variant.")
    }
}

#[test]
fn groups_info_ok_response() {
    let request = groups::info("TEST_TOKEN", "G12345678");
    assert_eq!(request.method, "groups.info");
    assert_eq!(request.token, "TEST_TOKEN");
    let result: ApiResult<groups::InfoResponse> = decode_response(&parse(r#"{
            "ok": true,
            "group": {
                "id": "G12345678",
                "name": "secretplans",
                "is_group": true,
                "created": 1360782804,
                "creator": "U024BE7LH",
                "is_archived": false,
                "is_open": true,
                "last_read": "0000000000.000000",
                "latest": null,
                "unread_count": 0,
                "unread_count_display": 0,
                "members": [
                    "U024BE7LH"
                ],
                "topic": {
                    "value": "Secret plans on hold",
                    "creator": "U024BE7LV",
                    "last_set": 1369677212
                },
                "purpose": {
                    "value": "Discuss secret plans that no-one else should know",
                    "creator": "U024BE7LH",
                    "last_set": 1360782804
                }
            }
        }"#));
    if let Err(err) = result {
        panic!("{:?}", err);
    }
    assert!(result.unwrap().group.id == "G12345678");
}

#[test]
fn groups_invite_ok_response() {
    let request = groups::invite("TEST_TOKEN", "G12345678", "U12345678");
    assert_eq!(request.method, "groups.invite");
    assert_eq!(request.token, "TEST_TOKEN");
    let result: ApiResult<groups::InviteResponse> = decode_response(&parse(r#"{
            "ok": true,
            "group": {
                "id": "G12345678",
                "name": "secretplans",
                "is_group": true,
                "created": 1360782804,
                "creator": "U024BE7LH",
                "is_archived": false,
                "is_open": true,
                "last_read": "0000000000.000000",
                "latest": null,
                "unread_count": 0,
                "unread_count_display": 0,
                "members": [
                    "U024BE7LH"
                ],
                "topic": {
                    "value": "Secret plans on hold",
                    "creator": "U024BE7LV",
                    "last_set": 1369677212
                },
                "purpose": {
                    "value": "Discuss secret plans that no-one else should know",
                    "creator": "U024BE7LH",
                    "last_set": 1360782804
                }
            }
        }"#));
    if let Err(err) = result {
        panic!("{:?}", err);
    }
    assert!(result.unwrap().group.id == "G12345678");
}

#[test]
fn invite_already_in_channel_ok_response() {
    let request = groups::invite("TEST_TOKEN", "G12345678", "U12345678");
    assert_eq!(request.method, "groups.invite");
    assert_eq!(request.token, "TEST_TOKEN");
    let result: ApiResult<groups::InviteResponse> = decode_response(&parse(r#"{
            "ok": true,
            "already_in_group": true,
            "group": {
                "id": "G12345678",
                "name": "secretplans",
                "is_group": true,
                "created": 1360782804,
                "creator": "U024BE7LH",
                "is_archived": false,
                "is_open": true,
                "last_read": "0000000000.000000",
                "latest": null,
                "unread_count": 0,
                "unread_count_display": 0,
                "members": [
                    "U024BE7LH"
                ],
                "topic": {
                    "value": "Secret plans on hold",
                    "creator": "U024BE7LV",
                    "last_set": 1369677212
                },
                "purpose": {
                    "value": "Discuss secret plans that no-one else should know",
                    "creator": "U024BE7LH",
                    "last_set": 1360782804
                }
            }
        }"#));
    if let Err(err) = result {
        panic!("{:?}", err);
    }
    assert!(result.unwrap().already_in_group.unwrap() == true);
}

#[test]
fn groups_kick_ok_response() {
    let request = groups::kick("TEST_TOKEN", "G12345678", "U12345678");
    assert_eq!(request.method, "groups.kick");
    assert_eq!(request.token, "TEST_TOKEN");
    let result: ApiResult<groups::KickResponse> = decode_response(&parse(r#"{"ok": true}"#));
    if let Err(err) = result {
        panic!("{:?}", err);
    }
}

#[test]
fn groups_leave_ok_response() {
    let request = groups::leave("TEST_TOKEN", "G12345678");
    assert_eq!(request.method, "groups.leave");
    assert_eq!(request.token, "TEST_TOKEN");
    let result: ApiResult<groups::LeaveResponse> = decode_response(&parse(r#"{"ok": true}"#));
    if let Err(err) = result {
        panic!("{:?}", err);
    }
}

#[test]
fn groups_list_ok_response() {
    let request = groups::list("TEST_TOKEN", None);
    assert_eq!(request.method, "groups.list");
    assert_eq!(request.token, "TEST_TOKEN");
    let result: ApiResult<groups::ListResponse> = decode_response(&parse(r#"{
            "ok": true,
            "groups": [
                {
                    "id": "G12345678",
                    "name": "secretplans",
                    "is_group": true,
                    "created": 1360782804,
                    "creator": "U024BE7LH",
                    "is_archived": false,
                    "is_open": true,
                    "last_read": "0000000000.000000",
                    "latest": null,
                    "unread_count": 0,
                    "unread_count_display": 0,
                    "members": [
                        "U024BE7LH"
                    ],
                    "topic": {
                        "value": "Secret plans on hold",
                        "creator": "U024BE7LV",
                        "last_set": 1369677212
                    },
                    "purpose": {
                        "value": "Discuss secret plans that no-one else should know",
                        "creator": "U024BE7LH",
                        "last_set": 1360782804
                    }
                },
                {
                    "id": "G87654321",
                    "name": "secretplans",
                    "is_group": true,
                    "created": 1360782804,
                    "creator": "U024BE7LH",
                    "is_archived": false,
                    "is_open": true,
                    "last_read": "0000000000.000000",
                    "latest": null,
                    "unread_count": 0,
                    "unread_count_display": 0,
                    "members": [
                        "U024BE7LH"
                    ],
                    "topic": {
                        "value": "Secret plans on hold",
                        "creator": "U024BE7LV",
                        "last_set": 1369677212
                    },
                    "purpose": {
                        "value": "Discuss secret plans that no-one else should know",
                        "creator": "U024BE7LH",
                        "last_set": 1360782804
                    }
                }
            ]
        }"#));
    if let Err(err) = result {
        panic!("{:?}", err);
    }
    assert!(result.unwrap().groups[1].id == "G87654321");
}

#[test]
fn groups_mark_ok_response() {
    let request = groups::mark("TEST_TOKEN", "G12345678", "1234567890.123456");
    assert_eq!(request.method, "groups.mark");
    assert_eq!(request.token, "TEST_TOKEN");
    let result: ApiResult<groups::MarkResponse> = decode_response(&parse(r#"{"ok": true}"#));
    if let Err(err) = result {
        panic!("{:?}", err);
    }
}

#[test]
fn groups_rename_ok_response() {
    let request = groups::rename("TEST_TOKEN", "G12345678", "newname");
    assert_eq!(request.method, "groups.rename");
    assert_eq!(request.token, "TEST_TOKEN");
    let result: ApiResult<groups::RenameResponse> = decode_response(&parse(r#"{
            "ok": true,
            "channel": {
                "id": "C024BE91J",
                "is_group": true,
                "name": "NEW_NAME",
                "created": 1444102158
            }
        }"#));
    if let Err(err) = result {
        panic!("{:?}", err);
    }
    assert!(result.unwrap().channel.name == "NEW_NAME")
}

#[test]
fn groups_set_purpose_ok_response() {
    let request = groups::set_purpose("TEST_TOKEN", "G12345678", "This is the new purpose!");
    assert_eq!(request.method, "groups.setPurpose");
    assert_eq!(request.token, "TEST_TOKEN");
    let result: ApiResult<groups::SetPurposeResponse> = decode_response(&parse(r#"{
            "ok": true,
            "purpose": "This is the new purpose!"
        }"#));
    if let Err(err) = result {
        panic!("{:?}", err);
    }
    assert!(result.unwrap().purpose == "This is the new purpose!")
}

#[test]
fn groups_set_topic_ok_response() {
    let request = groups::set_topic("TEST_TOKEN", "G12345678", "This is the new topic!");
    assert_eq!(request.method, "groups.setTopic");
    assert_eq!(request.token, "TEST_TOKEN");
    let result: ApiResult<groups::SetTopicResponse> = decode_response(&parse(r#"{
            "ok": true,
            "topic": "This is the new topic!"
        }"#));
    if let Err(err) = result {
        panic!("{:?}", err);
    }
    assert!(result.unwrap().topic == "This is the new topic!")
}

#[test]
fn groups_unarchive_ok_response() {
    let request = groups::unarchive("TEST_TOKEN", "G12345678");
    assert_eq!(request.method, "groups.unarchive");
    assert_eq!(request.token, "TEST_TOKEN");
    let result: ApiResult<groups::UnarchiveResponse> = decode_response(&parse(r#"{"ok": true}"#));
    if let Err(err) = result {
        panic!("{:?}", err);
    }
}
