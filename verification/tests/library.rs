use slack::api::rtm::StartResponse;
use slack::api::{api, channels, chat, decode_response, stars, ApiResult, Item, Message, StarredItem};
use slack::client::{message_payload, presence_payload, socket_address, socket_url, typing_payload, Client, WsMessage};
use slack::json::{DecodeError, FromJson, Json};
use slack::run::{fits, start, step, Frame, RunAction, RunEvent, RunState};
use slack::string_map::StringMap;
use slack::Error;

fn to_json(v: &serde_json::Value) -> Json {
    match v {
        serde_json::Value::Null => Json::Null,
        serde_json::Value::Bool(b) => Json::Bool(*b),
        serde_json::Value::Number(n) => match (n.as_i64(), n.as_u64()) {
            (Some(i), _) => Json::Int(i as i128),
            (None, Some(u)) => Json::Int(u as i128),
            _ => Json::Decimal,
        },
        serde_json::Value::String(s) => Json::Str(s.clone()),
        serde_json::Value::Array(items) => Json::Array(items.iter().map(to_json).collect()),
        serde_json::Value::Object(fields) => {
            Json::Object(fields.iter().map(|(k, v)| (k.clone(), to_json(v))).collect())
        }
    }
}

fn parse(text: &str) -> Json {
    to_json(&serde_json::from_str::<serde_json::Value>(text).unwrap())
}

fn decode<T: FromJson>(text: &str) -> Result<T, DecodeError> {
    T::from_json(&parse(text))
}

fn pairs(params: &[(String, String)]) -> Vec<(&str, &str)> {
    params.iter().map(|(k, v)| (k.as_str(), v.as_str())).collect()
}

const START: &str = r#"{
    "ok": true,
    "url": "wss://ms9.slack-msgs.com/websocket/7I5yBpcvk",
    "self": {"id": "U023BECGF", "name": "bobby", "created": 1402463766, "manual_presence": "active"},
    "team": {"id": "T024BE7LD", "name": "Example Team", "email_domain": "", "domain": "example",
             "msg_edit_window_mins": -1, "over_storage_limit": false, "plan": "std"},
    "users": [
        {"id": "U023BECGF", "name": "bobby", "deleted": false,
         "profile": {"image_24": "a", "image_32": "b", "image_48": "c", "image_72": "d", "image_192": "e"}}
    ],
    "channels": [
        {"id": "C024BE91L", "name": "fun", "is_channel": true, "created": 1360782804,
         "creator": "U024BE7LH", "is_archived": false, "is_general": false, "is_member": true},
        {"id": "C0GENERAL", "name": "general", "is_channel": true, "created": 1360782804,
         "creator": "U024BE7LH", "is_archived": false, "is_general": true, "is_member": true},
        {"id": "C0FUNAGAIN", "name": "fun", "is_channel": true, "created": 1360782805,
         "creator": "U024BE7LH", "is_archived": false, "is_general": false, "is_member": false}
    ],
    "groups": [
        {"id": "G024BE91L", "name": "secretplans", "is_group": true, "created": 1360782804,
         "creator": "U024BE7LH", "is_archived": false}
    ],
    "ims": [{"id": "D024BFF1M", "is_im": true, "user": "U024BE7LH", "created": 1360782804}],
    "bots": []
}"#;

fn logged_in_client() -> Client {
    let start: StartResponse = decode_response(&parse(START)).unwrap();
    let mut client = Client::new("TOKEN");
    client.login_with(start).unwrap();
    client
}

#[test]
fn history_request_carries_every_given_option() {
    let r = channels::history("T", "C1", Some("100.5"), None, Some(true), Some(250));
    assert_eq!(r.method, "channels.history");
    assert_eq!(
        pairs(&r.params),
        vec![("channel", "C1"), ("latest", "100.5"), ("inclusive", "1"), ("count", "250")]
    );
    let r = channels::history("T", "C1", None, Some("7"), Some(false), None);
    assert_eq!(pairs(&r.params), vec![("channel", "C1"), ("oldest", "7"), ("inclusive", "0")]);
}

#[test]
fn post_message_request_spells_flags_as_words_or_digits() {
    let r = chat::post_message(
        "T", "C1", "hi", Some("bot"), Some(true), None, Some(false), None, Some(false), None, None,
        Some(":smile:"),
    );
    assert_eq!(r.method, "chat.postMessage");
    assert_eq!(
        pairs(&r.params),
        vec![
            ("channel", "C1"),
            ("text", "hi"),
            ("username", "bot"),
            ("as_user", "true"),
            ("link_names", "0"),
            ("unfurl_links", "false"),
            ("icon_emoji", ":smile:"),
        ]
    );
}

#[test]
fn request_without_options_has_no_parameters() {
    let r = stars::add("T", None, None, None, None);
    assert_eq!(r.method, "stars.add");
    assert!(r.params.is_empty());
}

#[test]
fn api_test_request_sends_one_value_per_name() {
    let mut args = StringMap::new();
    args.insert("x".to_string(), "1".to_string());
    let r = api::test("T", Some(args), Some("boom"));
    assert_eq!(pairs(&r.params), vec![("error", "boom"), ("x", "1")]);
    let mut args = StringMap::new();
    args.insert("x".to_string(), "1".to_string());
    args.insert("error".to_string(), "mine".to_string());
    args.insert("x".to_string(), "2".to_string());
    let r = api::test("T", Some(args), Some("boom"));
    assert_eq!(pairs(&r.params), vec![("error", "mine"), ("x", "2")]);
    let mut args = StringMap::new();
    args.entries.push(("y".to_string(), "1".to_string()));
    args.entries.push(("y".to_string(), "2".to_string()));
    let r = api::test("T", Some(args), None);
    assert_eq!(pairs(&r.params), vec![("y", "2")]);
}

#[test]
fn numbers_are_written_in_decimal() {
    let r = channels::history("T", "C1", None, None, None, Some(0));
    assert_eq!(pairs(&r.params), vec![("channel", "C1"), ("count", "0")]);
    let r = slack::api::files::list("T", None, None, None, None, Some(4294967295), Some(12));
    assert_eq!(pairs(&r.params), vec![("count", "4294967295"), ("page", "12")]);
    assert_eq!(typing_payload(1234, "C"), r#"{"id": 1234, "type": "typing", "channel": "C"}"#);
}

#[test]
fn unknown_message_subtype_is_reported_by_name() {
    let r: Result<Message, DecodeError> = decode(r#"{"subtype": "channel_frobbed", "ts": "1"}"#);
    match r {
        Err(DecodeError::Unknown(m)) => assert_eq!(m, "Unknown Message type: channel_frobbed"),
        other => panic!("unexpected {:?}", other),
    }
}

#[test]
fn unknown_item_and_starred_item_types_are_reported_by_name() {
    match decode::<Item>(r#"{"type": "channel", "channel": "C1"}"#) {
        Err(DecodeError::Unknown(m)) => assert_eq!(m, "Unknown Item type: channel"),
        other => panic!("unexpected {:?}", other),
    }
    match decode::<StarredItem>(r#"{"type": "reminder"}"#) {
        Err(DecodeError::Unknown(m)) => assert_eq!(m, "Unknown StarredItem type: reminder"),
        other => panic!("unexpected {:?}", other),
    }
}

#[test]
fn message_with_null_subtype_is_standard_and_missing_ts_is_malformed() {
    match decode::<Message>(r#"{"subtype": null, "ts": "5"}"#) {
        Ok(Message::Standard { ts, user, .. }) => {
            assert_eq!(ts, "5");
            assert!(user.is_none());
        }
        other => panic!("unexpected {:?}", other),
    }
    assert!(matches!(decode::<Message>(r#"{"text": "no ts"}"#), Err(DecodeError::Malformed)));
    assert!(matches!(decode::<Message>(r#"[1, 2]"#), Err(DecodeError::Malformed)));
    assert!(matches!(decode::<Message>(r#"{"subtype": 3, "ts": "5"}"#), Err(DecodeError::Malformed)));
}

#[test]
fn nested_unknown_subtype_surfaces_from_a_changed_message() {
    let r = decode::<Message>(
        r#"{"subtype": "message_changed", "hidden": true, "channel": "C", "ts": "1",
            "message": {"subtype": "mystery", "ts": "0"}}"#,
    );
    match r {
        Err(DecodeError::Unknown(m)) => assert_eq!(m, "Unknown Message type: mystery"),
        other => panic!("unexpected {:?}", other),
    }
}

#[test]
fn integers_must_fit_their_field() {
    let ok = decode::<slack::api::Pagination>(r#"{"count": 1, "total": 2, "page": 3, "pages": 4}"#).unwrap();
    assert_eq!((ok.count, ok.total, ok.page, ok.pages), (1, 2, 3, 4));
    assert!(decode::<slack::api::Pagination>(r#"{"count": -1, "total": 2, "page": 3, "pages": 4}"#).is_err());
    assert!(decode::<slack::api::Pagination>(r#"{"count": 4294967296, "total": 2, "page": 3, "pages": 4}"#)
        .is_err());
    assert!(decode::<slack::api::Pagination>(r#"{"count": 1.5, "total": 2, "page": 3, "pages": 4}"#).is_err());
}

#[test]
fn api_error_answer_reports_slack_error_text() {
    let r: ApiResult<channels::ArchiveResponse> =
        decode_response(&parse(r#"{"ok": false, "error": "channel_not_found"}"#));
    match r {
        Err(Error::Api(m)) => assert_eq!(m, "channel_not_found"),
        other => panic!("unexpected {:?}", other),
    }
    let r: ApiResult<channels::ArchiveResponse> = decode_response(&parse(r#"{"error": "x"}"#));
    assert!(matches!(r, Err(Error::Decode(DecodeError::Malformed))));
    let r: ApiResult<channels::CreateResponse> = decode_response(&parse(r#"{"ok": true}"#));
    assert!(matches!(r, Err(Error::Decode(_))));
}

#[test]
fn string_map_later_insert_overrides() {
    let mut m = StringMap::new();
    m.insert("a".to_string(), "1".to_string());
    m.insert("b".to_string(), "2".to_string());
    m.insert("a".to_string(), "3".to_string());
    assert_eq!(m.get("a").unwrap(), "3");
    assert_eq!(m.get("b").unwrap(), "2");
    assert!(m.get("c").is_none());
    assert_eq!(m.len(), 2);
    assert_eq!(pairs(&m.entries), vec![("a", "3"), ("b", "2")]);
}

#[test]
fn login_records_ids_by_name_with_the_last_channel_winning() {
    let client = logged_in_client();
    assert_eq!(client.get_channel_id("fun").unwrap(), "C0FUNAGAIN");
    assert_eq!(client.get_channel_id("general").unwrap(), "C0GENERAL");
    assert!(client.get_channel_id("random").is_none());
    assert_eq!(client.get_group_id("secretplans").unwrap(), "G024BE91L");
    assert_eq!(client.get_user_id("bobby").unwrap(), "U023BECGF");
    assert_eq!(client.get_team().unwrap().id, "T024BE7LD");
    assert_eq!(client.get_channels().len(), 3);
    assert_eq!(client.get_channels()[2].id, "C0FUNAGAIN");
    assert_eq!(client.get_groups()[0].id, "G024BE91L");
    assert_eq!(client.get_users()[0].name, "bobby");
    assert_eq!(client.wss_url.as_deref(), Some("wss://ms9.slack-msgs.com/websocket/7I5yBpcvk"));
    assert_eq!(client.get_start_ims().unwrap()[0].id, "D024BFF1M");
}

#[test]
fn client_before_login_knows_nothing() {
    let client = Client::new("TOKEN");
    assert_eq!(client.token, "TOKEN");
    assert!(client.get_team().is_none());
    assert!(client.get_users().is_empty());
    assert!(client.get_channels().is_empty());
    assert!(client.get_groups().is_empty());
    assert!(client.get_start_ims().is_none());
    assert!(client.wss_url.is_none());
    assert!(client.get_channel_id("general").is_none());
    match client.shutdown_message() {
        Err(Error::Internal(m)) => {
            assert_eq!(m, "Cannot shutdown without a sender. Ensure you have run `login`.")
        }
        other => panic!("unexpected {:?}", other),
    }
}

#[test]
fn evaluate_channel_id_resolves_hash_names_and_keeps_ids() {
    let client = logged_in_client();
    assert_eq!(client.evaluate_channel_id("#general").unwrap(), "C0GENERAL");
    assert_eq!(client.evaluate_channel_id("#fun").unwrap(), "C0FUNAGAIN");
    assert_eq!(client.evaluate_channel_id("C12345").unwrap(), "C12345");
    match client.evaluate_channel_id("#nowhere") {
        Err(Error::Internal(m)) => assert_eq!(m, "need to login first to retrieve channel list"),
        other => panic!("unexpected {:?}", other),
    }
    assert!(matches!(client.shutdown_message(), Ok(WsMessage::Close)));
}

#[test]
fn message_payload_escapes_text_and_carries_id() {
    assert_eq!(
        message_payload(7, "C1", "say \"hi\"\n"),
        r#"{"id": 7,"type": "message", "channel": "C1","text": "say \"hi\"\n"}"#
    );
    let client = logged_in_client();
    assert_eq!(
        client.message_payload(3, "#general", "bla").unwrap(),
        r#"{"id": 3,"type": "message", "channel": "C0GENERAL","text": "bla"}"#
    );
    match client.message_payload(3, "#nowhere", "bla") {
        Err(Error::Internal(m)) => assert_eq!(m, "Failed to get channel id"),
        other => panic!("unexpected {:?}", other),
    }
}

#[test]
fn typing_and_presence_payloads() {
    assert_eq!(typing_payload(12, "C9"), r#"{"id": 12, "type": "typing", "channel": "C9"}"#);
    let client = logged_in_client();
    assert_eq!(
        client.typing_payload(1, "#fun").unwrap(),
        r#"{"id": 1, "type": "typing", "channel": "C0FUNAGAIN"}"#
    );
    assert_eq!(presence_payload(&["W839208", "U1"]), r#"{"type": "presence_sub", "ids": ["W839208", "U1"]}"#);
    assert_eq!(presence_payload(&[]), r#"{"type": "presence_sub", "ids": []}"#);
    assert_eq!(presence_payload(&["a\"b"]), r#"{"type": "presence_sub", "ids": ["a\"b"]}"#);
}

#[test]
fn run_loop_drains_queue_before_reading() {
    let (state, action) = start();
    assert_eq!(state, RunState::Polling);
    assert!(matches!(action, RunAction::PollQueue));
    let ev = RunEvent::Outgoing(WsMessage::Text("hello".to_string()));
    assert!(fits(&state, &ev));
    let (state, action) = step(state, ev);
    assert_eq!(state, RunState::Writing);
    assert!(matches!(action, RunAction::WriteText(ref t) if t == "hello"));
    let (state, action) = step(state, RunEvent::Written);
    assert_eq!(state, RunState::Polling);
    assert!(matches!(action, RunAction::PollQueue));
    let (state, action) = step(state, RunEvent::QueueEmpty);
    assert_eq!(state, RunState::Reading);
    assert!(matches!(action, RunAction::ReadFrame));
    assert!(!fits(&state, &RunEvent::Handled));
    let (state, action) = step(state, RunEvent::Received(Frame::Text("{}".to_string())));
    assert_eq!(state, RunState::Handling);
    assert!(matches!(action, RunAction::HandleEvent(ref t) if t == "{}"));
    let (state, _) = step(state, RunEvent::Handled);
    let (state, _) = step(state, RunEvent::QueueEmpty);
    let (state, action) = step(state, RunEvent::ReadFailed);
    assert_eq!(state, RunState::Pinging);
    assert!(matches!(action, RunAction::WritePing));
    let (state, _) = step(state, RunEvent::Written);
    let (state, _) = step(state, RunEvent::QueueEmpty);
    let (state, action) = step(state, RunEvent::Received(Frame::Pong));
    assert_eq!(state, RunState::Polling);
    assert!(matches!(action, RunAction::PollQueue));
}

#[test]
fn run_loop_stops_on_close_disconnect_and_write_failure() {
    let (state, action) = step(RunState::Polling, RunEvent::Outgoing(WsMessage::Close));
    assert_eq!(state, RunState::Stopped);
    assert!(matches!(action, RunAction::CloseSocket));
    assert!(!fits(&state, &RunEvent::QueueEmpty));
    let (state, action) = step(RunState::Polling, RunEvent::QueueDisconnected);
    assert_eq!(state, RunState::Stopped);
    assert!(matches!(action, RunAction::Fail(Error::Internal(ref m)) if m == "rx disconnected"));
    let (state, action) = step(RunState::Writing, RunEvent::WriteFailed("broken pipe".to_string()));
    assert_eq!(state, RunState::Stopped);
    assert!(matches!(action, RunAction::Abort(Error::WebSocket(ref m)) if m == "broken pipe"));
}

#[test]
fn error_descriptions_name_their_kind() {
    assert_eq!(Error::Api("invalid_auth".to_string()).describe(), "Slack Api Error: invalid_auth");
    assert_eq!(Error::Internal("x".to_string()).describe(), "Internal Error: x");
    assert_eq!(Error::Http("timeout".to_string()).describe(), "Http (reqwest) Error: timeout");
    assert_eq!(
        Error::Decode(DecodeError::Malformed).describe(),
        "Json decode Error: unexpected shape"
    );
    let e = serde_json::from_str::<serde_json::Value>("{").unwrap_err();
    let d = Error::from(e).describe();
    assert!(d.starts_with("Json Error: "));
    assert!(d.len() > "Json Error: ".len());
}

#[test]
fn request_address_and_query_lead_with_the_token() {
    let r = channels::invite("xoxb-1", "C1", "U2");
    assert_eq!(r.url(), "https://slack.com/api/channels.invite");
    assert_eq!(pairs(&r.query()), vec![("token", "xoxb-1"), ("channel", "C1"), ("user", "U2")]);
}

#[test]
fn socket_url_asks_for_batched_presence() {
    let start: StartResponse = decode_response(&parse(START)).unwrap();
    assert_eq!(
        socket_url(&start).unwrap(),
        "wss://ms9.slack-msgs.com/websocket/7I5yBpcvk?batch_presence_aware=1"
    );
    let mut bad = start.clone();
    bad.url = "not a url".to_string();
    match socket_url(&bad) {
        Err(Error::Url(m)) => assert_eq!(m, "relative URL without a base"),
        other => panic!("unexpected {:?}", other),
    }
}

#[test]
fn message_payload_escapes_control_characters_as_serde_json_does() {
    assert_eq!(
        message_payload(1, "C", "a\u{1}b\tc\\d\u{8}\u{c}\r\u{1f}\u{7f}é"),
        "{\"id\": 1,\"type\": \"message\", \"channel\": \"C\",\"text\": \"a\\u0001b\\tc\\\\d\\b\\f\\r\\u001f\u{7f}é\"}"
    );
    let escaped = serde_json::to_string("a\u{1}b\"").unwrap();
    let sent = message_payload(0, "C", "a\u{1}b\"");
    assert!(sent.contains(&escaped[1..escaped.len() - 1]));
    let back: serde_json::Value = serde_json::from_str(&sent).unwrap();
    assert_eq!(back["text"], "a\u{1}b\"");
}

#[test]
fn login_with_a_malformed_socket_address_is_refused() {
    let mut start: StartResponse = decode_response(&parse(START)).unwrap();
    start.url = "not a url".to_string();
    let mut client = Client::new("TOKEN");
    match client.login_with(start) {
        Err(Error::Url(m)) => assert_eq!(m, "relative URL without a base"),
        other => panic!("unexpected {:?}", other),
    }
    assert!(client.get_team().is_none());
    assert!(client.get_channel_id("general").is_none());
    assert!(client.wss_url.is_none());
}

#[test]
fn message_reading_ignores_the_type_member() {
    let with: Message = decode(r#"{"type": "something_else", "ts": "1358546515.000007", "wibblr": true}"#).unwrap();
    let without: Message = decode(r#"{"ts": "1358546515.000007"}"#).unwrap();
    match (with, without) {
        (Message::Standard { ts: a, user: None, text: None, .. }, Message::Standard { ts: b, .. }) => {
            assert_eq!(a, "1358546515.000007");
            assert_eq!(a, b);
        }
        other => panic!("unexpected {:?}", other),
    }
}

#[test]
fn starred_item_and_item_read_a_message_alike() {
    let text = r#"{"type": "message", "channel": "C1", "message": {"ts": "7.1", "text": "hi"}}"#;
    match (decode::<StarredItem>(text), decode::<Item>(text)) {
        (Ok(StarredItem::Message { channel: a, message: m }), Ok(Item::Message { channel: b, message: n })) => {
            assert_eq!(a, "C1");
            assert_eq!(a, b);
            match (m, *n) {
                (Message::Standard { ts: x, text: Some(t), .. }, Message::Standard { ts: y, .. }) => {
                    assert_eq!(x, "7.1");
                    assert_eq!(x, y);
                    assert_eq!(t, "hi");
                }
                other => panic!("unexpected {:?}", other),
            }
        }
        other => panic!("unexpected {:?}", other),
    }
    let broken = r#"{"type": "file"}"#;
    assert!(decode::<StarredItem>(broken).is_err());
    assert!(decode::<Item>(broken).is_err());
}

#[test]
fn start_answer_needs_its_self_member() {
    let mut v: serde_json::Value = serde_json::from_str(START).unwrap();
    let me = v["self"].clone();
    let fields = v.as_object_mut().unwrap();
    fields.remove("self");
    fields.insert("self_data".to_string(), me);
    assert!(StartResponse::from_json(&to_json(&v)).is_err());
    assert!(StartResponse::from_json(&parse(START)).is_ok());
}

#[test]
fn queued_messages_are_written_in_order_before_the_close() {
    let (mut state, mut action) = start();
    let mut written: Vec<String> = Vec::new();
    let mut queue = vec![
        WsMessage::Text("one".to_string()),
        WsMessage::Text("two".to_string()),
        WsMessage::Text("three".to_string()),
        WsMessage::Close,
    ]
    .into_iter();
    loop {
        let event = match action {
            RunAction::PollQueue => RunEvent::Outgoing(queue.next().unwrap()),
            RunAction::WriteText(t) => {
                written.push(t);
                RunEvent::Written
            }
            RunAction::CloseSocket => break,
            other => panic!("unexpected {:?}", other),
        };
        assert!(fits(&state, &event));
        let next = step(state, event);
        state = next.0;
        action = next.1;
    }
    assert_eq!(state, RunState::Stopped);
    assert_eq!(written, vec!["one", "two", "three"]);
}

#[test]
fn string_map_read_from_json_keeps_one_value_per_name() {
    let j = Json::Object(vec![
        ("a".to_string(), Json::Str("1".to_string())),
        ("b".to_string(), Json::Str("2".to_string())),
        ("a".to_string(), Json::Str("3".to_string())),
    ]);
    let m = StringMap::from_json(&j).unwrap();
    assert_eq!(m.len(), 2);
    assert_eq!(pairs(&m.entries), vec![("a", "3"), ("b", "2")]);
    let bad = Json::Object(vec![("a".to_string(), Json::Int(1))]);
    assert!(matches!(StringMap::from_json(&bad), Err(DecodeError::Malformed)));
}

#[test]
fn a_member_named_twice_reads_as_its_last_value() {
    let j = Json::Object(vec![
        ("ts".to_string(), Json::Str("1".to_string())),
        ("text".to_string(), Json::Str("hi".to_string())),
        ("ts".to_string(), Json::Str("2".to_string())),
    ]);
    match Message::from_json(&j).unwrap() {
        Message::Standard { ts, text, .. } => {
            assert_eq!(ts, "2");
            assert_eq!(text.as_deref(), Some("hi"));
        }
        other => panic!("unexpected {:?}", other),
    }
}

#[test]
fn socket_address_needs_an_address() {
    match socket_address(None) {
        Err(Error::Api(m)) => assert_eq!(m, "Slack did not provide a URL"),
        other => panic!("unexpected {:?}", other),
    }
    assert_eq!(
        socket_address(Some("wss://example.com/ws")).unwrap(),
        "wss://example.com/ws?batch_presence_aware=1"
    );
    assert!(matches!(socket_address(Some("not a url")), Err(Error::Url(_))));
}

#[test]
fn message_read_failures_ignore_the_type_member_too() {
    let with = r#"{"type": "x", "subtype": "message_changed", "hidden": true, "channel": "C", "ts": "1",
                   "message": {"subtype": "zzz"}}"#;
    let without = r#"{"subtype": "message_changed", "hidden": true, "channel": "C", "ts": "1",
                      "message": {"subtype": "zzz"}}"#;
    for text in [with, without] {
        match decode::<Message>(text) {
            Err(DecodeError::Unknown(m)) => assert_eq!(m, "Unknown Message type: zzz"),
            other => panic!("unexpected {:?}", other),
        }
    }
    let missing_with = r#"{"type": "x", "subtype": "bot_message", "ts": "1", "text": "t"}"#;
    let missing_without = r#"{"subtype": "bot_message", "ts": "1", "text": "t"}"#;
    assert!(matches!(decode::<Message>(missing_with), Err(DecodeError::Malformed)));
    assert!(matches!(decode::<Message>(missing_without), Err(DecodeError::Malformed)));
}

#[test]
fn starred_item_and_item_report_the_same_failure() {
    let text = r#"{"type": "message", "channel": "C1", "message": {"subtype": "zz"}}"#;
    match (decode::<StarredItem>(text), decode::<Item>(text)) {
        (Err(DecodeError::Unknown(a)), Err(DecodeError::Unknown(b))) => {
            assert_eq!(a, "Unknown Message type: zz");
            assert_eq!(a, b);
        }
        other => panic!("unexpected {:?}", other),
    }
}
