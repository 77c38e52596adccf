use rmq_webhook_relay::decode::decode;
use rmq_webhook_relay::handler::{outcome, prepare, read_response, Outcome};
use rmq_webhook_relay::json::Json;
use rmq_webhook_relay::model::{RelayError, WebhookData};
use rmq_webhook_relay::request::{build, file_part_name, payload_json, OutboundRequest};
use rmq_webhook_relay::target::resolve;

fn bare_payload(content: &str) -> WebhookData {
    WebhookData {
        content: content.to_string(),
        username: None,
        avatar_url: None,
        tts: None,
        embeds: None,
    }
}

#[test]
fn scenario_json_request_without_files() {
    let msg = r#"{"webhook_uri":"http://x/y","payload":{"content":"hi"}}"#;
    match prepare(msg, &None).unwrap() {
        OutboundRequest::Json { uri, content_type, body } => {
            assert_eq!(uri, "http://x/y");
            assert_eq!(content_type, "application/json");
            assert_eq!(body, r#"{"content":"hi"}"#);
        }
        OutboundRequest::Multipart { .. } => panic!("expected a JSON request"),
    }
}

#[test]
fn scenario_default_target_used() {
    let msg = r#"{"webhook_uri":null,"payload":{"content":"hi"}}"#;
    match prepare(msg, &Some("http://default".to_string())).unwrap() {
        OutboundRequest::Json { uri, .. } => assert_eq!(uri, "http://default"),
        OutboundRequest::Multipart { .. } => panic!("expected a JSON request"),
    }
}

#[test]
fn scenario_no_target() {
    let msg = r#"{"webhook_uri":null,"payload":{"content":"hi"}}"#;
    assert!(matches!(prepare(msg, &None), Err(RelayError::NoTarget)));
}

#[test]
fn scenario_one_file_multipart() {
    let msg = r#"{"webhook_uri":"http://x/y","payload":{"content":"hi"},"files":[{"filename":"a.png","is_spoiler":null,"data":[1,2,255]}]}"#;
    match prepare(msg, &None).unwrap() {
        OutboundRequest::Multipart { uri, payload_json, parts } => {
            assert_eq!(uri, "http://x/y");
            assert_eq!(payload_json, r#"{"content":"hi"}"#);
            assert_eq!(parts.len(), 1);
            assert_eq!(parts[0].name, "file0");
            assert_eq!(parts[0].filename, "a.png");
            assert_eq!(parts[0].mime, "application/octet-stream");
            assert_eq!(parts[0].data, vec![1u8, 2, 255]);
        }
        OutboundRequest::Json { .. } => panic!("expected a multipart request"),
    }
}

#[test]
fn scenario_reply_with_id() {
    match outcome(r#"{"id":"123"}"#) {
        Outcome::Identified(id) => assert_eq!(id, "123"),
        Outcome::Unidentified => panic!("expected an identifier"),
    }
}

#[test]
fn scenario_reply_not_json() {
    assert!(matches!(outcome("not json"), Outcome::Unidentified));
}

#[test]
fn reply_without_string_id_is_unidentified() {
    assert!(matches!(outcome(r#"{"id":123}"#), Outcome::Unidentified));
    assert!(matches!(outcome(""), Outcome::Unidentified));
    assert!(read_response(r#"{"id":"9","other":1}"#).map(|r| r.id) == Some("9".to_string()));
}

#[test]
fn empty_files_array_gives_json_request() {
    let msg = r#"{"webhook_uri":"http://x","payload":{"content":"c"},"files":[]}"#;
    assert!(matches!(prepare(msg, &None), Ok(OutboundRequest::Json { .. })));
}

#[test]
fn several_files_keep_their_order() {
    let msg = r#"{"webhook_uri":"u","payload":{"content":""},"files":[
        {"filename":"a","data":[]},{"filename":"b","data":[7]},{"filename":"c","is_spoiler":true,"data":[0]}]}"#;
    match prepare(msg, &None).unwrap() {
        OutboundRequest::Multipart { parts, .. } => {
            let names: Vec<&str> = parts.iter().map(|p| p.name.as_str()).collect();
            let files: Vec<&str> = parts.iter().map(|p| p.filename.as_str()).collect();
            assert_eq!(names, vec!["file0", "file1", "file2"]);
            assert_eq!(files, vec!["a", "b", "c"]);
            assert_eq!(parts[1].data, vec![7u8]);
        }
        OutboundRequest::Json { .. } => panic!("expected a multipart request"),
    }
}

#[test]
fn missing_content_fails_decode() {
    assert!(matches!(decode(r#"{"payload":{}}"#), Err(RelayError::Decode)));
    assert!(matches!(decode(r#"{"payload":{"content":null}}"#), Err(RelayError::Decode)));
    assert!(matches!(decode(r#"{"webhook_uri":"u"}"#), Err(RelayError::Decode)));
    assert!(matches!(decode("{not json"), Err(RelayError::Decode)));
    assert!(matches!(decode("[]"), Err(RelayError::Decode)));
}

#[test]
fn empty_content_decodes() {
    let e = decode(r#"{"payload":{"content":""}}"#).unwrap();
    assert_eq!(e.payload.content, "");
    assert!(e.webhook_uri.is_none());
    assert!(e.files.is_none());
}

#[test]
fn mistyped_members_fail_decode() {
    assert!(decode(r#"{"payload":{"content":"x","tts":"yes"}}"#).is_err());
    assert!(decode(r#"{"payload":{"content":"x"},"files":[{"filename":"a","data":[256]}]}"#).is_err());
    assert!(decode(r#"{"payload":{"content":"x"},"files":[{"filename":"a","data":[-1]}]}"#).is_err());
    assert!(decode(r#"{"payload":{"content":"x"},"files":[{"data":[1]}]}"#).is_err());
    assert!(decode(r#"{"webhook_uri":5,"payload":{"content":"x"}}"#).is_err());
}

#[test]
fn decode_reads_every_member() {
    let e = decode(
        r#"{"webhook_uri":"w","payload":{"content":"c","username":"u","avatar_url":"a","tts":true,"embeds":[{"t":1}]},"files":[{"filename":"f","is_spoiler":false,"data":[3]}]}"#,
    )
    .unwrap();
    assert_eq!(e.webhook_uri.as_deref(), Some("w"));
    assert_eq!(e.payload.username.as_deref(), Some("u"));
    assert_eq!(e.payload.avatar_url.as_deref(), Some("a"));
    assert_eq!(e.payload.tts, Some(true));
    assert_eq!(e.payload.embeds.as_ref().map(|v| v.len()), Some(1));
    let files = e.files.unwrap();
    assert_eq!(files[0].filename, "f");
    assert_eq!(files[0].is_spoiler, Some(false));
    assert_eq!(files[0].data, vec![3u8]);
}

#[test]
fn resolve_prefers_message_uri() {
    assert_eq!(resolve(Some("a".to_string()), &Some("d".to_string())).unwrap(), "a");
    assert_eq!(resolve(Some("a".to_string()), &None).unwrap(), "a");
    assert_eq!(resolve(None, &Some("d".to_string())).unwrap(), "d");
    assert_eq!(resolve(None, &None), Err(RelayError::NoTarget));
}

#[test]
fn resolve_empty_uri_falls_back() {
    assert_eq!(resolve(Some(String::new()), &Some("d".to_string())).unwrap(), "d");
    assert_eq!(resolve(Some(String::new()), &None), Err(RelayError::NoTarget));
}

#[test]
fn absent_fields_are_omitted() {
    let text = payload_json(bare_payload("hi"));
    assert_eq!(text, r#"{"content":"hi"}"#);
    assert!(!text.contains("null"));
}

#[test]
fn present_fields_are_written() {
    let p = WebhookData {
        content: "c".to_string(),
        username: Some("u".to_string()),
        avatar_url: Some("http://a".to_string()),
        tts: Some(false),
        embeds: Some(vec![Json::Object(vec![(
            "n".to_string(),
            Json::Array(vec![Json::Null, Json::Bool(true), Json::Str("s".to_string())]),
        )])]),
    };
    assert_eq!(
        payload_json(p),
        r#"{"avatar_url":"http://a","content":"c","embeds":[{"n":[null,true,"s"]}],"tts":false,"username":"u"}"#
    );
}

#[test]
fn strings_are_escaped() {
    assert_eq!(payload_json(bare_payload("a\"b\n")), "{\"content\":\"a\\\"b\\n\"}");
    assert_eq!(payload_json(bare_payload("\u{1}\u{1f}\t")), "{\"content\":\"\\u0001\\u001f\\t\"}");
}

#[test]
fn embeds_pass_through_verbatim() {
    let msg = r#"{"payload":{"content":"x","embeds":[{"title":"t","fields":[{"v":1.5},{"v":-2}]}]}}"#;
    let e = decode(msg).unwrap();
    assert_eq!(
        payload_json(e.payload),
        r#"{"content":"x","embeds":[{"fields":[{"v":1.5},{"v":-2}],"title":"t"}]}"#
    );
}

#[test]
fn json_values_serialize_compactly() {
    let mut p = bare_payload("");
    p.embeds = Some(vec![
        Json::Array(vec![]),
        Json::Object(vec![]),
        Json::Number { number: serde_json::Number::from(42u64), unsigned: Some(42) },
    ]);
    assert_eq!(payload_json(p), r#"{"content":"","embeds":[[],{},42]}"#);
}

#[test]
fn part_names_are_decimal() {
    assert_eq!(file_part_name(0), "file0");
    assert_eq!(file_part_name(9), "file9");
    assert_eq!(file_part_name(10), "file10");
    assert_eq!(file_part_name(1203), "file1203");
}

#[test]
fn build_without_files_is_json() {
    match build("u".to_string(), bare_payload("p"), vec![]) {
        OutboundRequest::Json { uri, body, .. } => {
            assert_eq!(uri, "u");
            assert_eq!(body, r#"{"content":"p"}"#);
        }
        OutboundRequest::Multipart { .. } => panic!("expected a JSON request"),
    }
}

#[test]
fn error_descriptions() {
    for e in [RelayError::Decode, RelayError::NoTarget, RelayError::PartEncoding, RelayError::Delivery] {
        assert!(!e.describe().is_empty());
    }
    assert_eq!(
        RelayError::NoTarget.describe(),
        "No webhook URI was given to the function, and no default URI is defined."
    );
}
