use oramacore_client::error::OramaError;
use oramacore_client::json::{
    parse_ai_response, safe_json_parse, within_repair_depth, JsonDoc, JsonMember,
    MAX_REPAIR_OPENERS,
};
use oramacore_client::stream_manager::{AnswerConfig, OramaCoreStream, StreamChunk};
use oramacore_client::utils::{create_random_string, format_duration, generate_uuid, Throttle};

fn text_of(doc: &JsonDoc, key: &str) -> Option<String> {
    match doc {
        JsonDoc::Object(members) => members
            .iter()
            .find(|m: &&JsonMember| m.key == key)
            .and_then(|m| m.text.clone()),
        JsonDoc::Other => None,
    }
}

#[test]
fn test_create_random_string() {
    let s1 = create_random_string(10);
    let s2 = create_random_string(10);

    assert_eq!(s1.len(), 10);
    assert_eq!(s2.len(), 10);
    assert_ne!(s1, s2);
}

#[test]
fn test_format_duration() {
    assert_eq!(format_duration(500), "500ms");
    assert_eq!(format_duration(1000), "1s");
    assert_eq!(format_duration(1500), "1.5s");
    assert_eq!(format_duration(2000), "2s");
}

#[test]
fn format_duration_rounds_to_tenths() {
    assert_eq!(format_duration(0), "0ms");
    assert_eq!(format_duration(999), "999ms");
    assert_eq!(format_duration(1234), "1.2s");
    assert_eq!(format_duration(1999), "2.0s");
    assert_eq!(format_duration(61000), "61s");
}

#[test]
fn test_generate_uuid() {
    let uuid1 = generate_uuid();
    let uuid2 = generate_uuid();

    assert_ne!(uuid1, uuid2);
    assert_eq!(uuid1.len(), 36);
    let b = uuid1.as_bytes();
    assert!([8, 13, 18, 23].iter().all(|&i| b[i] == b'-'));
}

#[test]
fn long_random_string_spans_several_uuids() {
    let s = create_random_string(100);
    assert_eq!(s.len(), 100);
    assert!(!s.contains('-'));
    assert_eq!(create_random_string(0), "");
}

#[test]
fn test_throttle() {
    let mut throttle = Throttle::new(100);

    let result1 = throttle.execute_at(1_000, || "first");
    assert_eq!(result1, Some("first"));

    let result2 = throttle.execute_at(1_000, || "second");
    assert_eq!(result2, None);

    let result3 = throttle.execute_at(1_150, || "third");
    assert_eq!(result3, Some("third"));
}

#[test]
fn throttle_runs_first_call_by_clock() {
    let mut throttle = Throttle::new(60_000);
    assert_eq!(throttle.execute(|| 1), Some(1));
    assert_eq!(throttle.execute(|| 2), None);
}

#[test]
fn test_safe_json_parse_valid() {
    let valid_json = r#"{"key": "value"}"#;
    let result = safe_json_parse(valid_json);
    assert!(result.is_ok());
    assert_eq!(text_of(&result.unwrap(), "key"), Some("value".to_string()));
}

#[test]
fn test_safe_json_parse_malformed() {
    let malformed_json = r#"{"key": "value",}"#;
    let result = safe_json_parse(malformed_json);

    assert!(result.is_ok());
    assert_eq!(text_of(&result.unwrap(), "key"), Some("value".to_string()));
}

#[test]
fn test_parse_ai_response_incomplete() {
    let incomplete_json = r#"{"content": "Hello wor"#;
    let result = parse_ai_response(incomplete_json);

    match result {
        Ok(doc) => {
            // Only the content member can come out of this text, and its
            // value is what the text holds.
            if let JsonDoc::Object(members) = &doc {
                assert!(members.iter().all(|m| m.key == "content"));
            }
            if let Some(text) = text_of(&doc, "content") {
                assert!("Hello wor".starts_with(&text));
            }
        }
        Err(_) => {}
    }
}

#[test]
fn non_object_json_is_other() {
    assert_eq!(safe_json_parse("42").unwrap(), JsonDoc::Other);
}

#[test]
fn blank_text_recovers_to_empty_object() {
    assert_eq!(safe_json_parse("").unwrap(), JsonDoc::Object(vec![]));
}

#[test]
fn deeply_nested_text_is_refused_without_repair() {
    let deep = "[".repeat(100_000);
    assert!(!within_repair_depth(&deep));
    assert_eq!(safe_json_parse(&deep), Err(OramaError::Json { message: deep.clone() }));
    let shallow = "[".repeat(MAX_REPAIR_OPENERS);
    assert!(within_repair_depth(&shallow));
    assert!(!within_repair_depth(&"{".repeat(MAX_REPAIR_OPENERS + 1)));
    assert!(within_repair_depth(r#"{"content": "Hello wor"#));
}

#[test]
fn deeply_nested_stream_payload_is_raw_data() {
    let mut s = OramaCoreStream::new("c".to_string());
    let (_, turn) = s.start_turn(AnswerConfig::new("q"));
    let deep = "{".repeat(100_000);
    assert_eq!(s.process_stream_data(turn, &deep), Ok(StreamChunk::RawData(deep.clone())));
}
