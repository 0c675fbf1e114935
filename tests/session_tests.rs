use oramacore_client::client::error_for_status;
use oramacore_client::error::OramaError;
use oramacore_client::json::{JsonDoc, JsonMember};
use oramacore_client::stream_manager::{
    collect_content, is_terminal, AnswerConfig, CreateAiSessionConfig, OramaCoreStream, SseEvent,
    StreamChunk, StreamConfig,
};
use oramacore_client::types::{LlmConfig, LlmProvider, Message, Role, DEFAULT_SERVER_USER_ID};

fn message(data: &str) -> SseEvent {
    SseEvent::Message(data.to_string())
}

fn session() -> OramaCoreStream {
    OramaCoreStream::new("col-1".to_string())
}

#[test]
fn ping_scenario_streams_pong() {
    let mut s = session();
    let (request, turn) = s.start_turn(AnswerConfig::new("ping"));
    assert_eq!(request.query, "ping");
    assert_eq!(
        s.apply_event(turn, message(r#"{"step":"starting"}"#), 0),
        Ok(StreamChunk::StatusUpdate("starting".to_string()))
    );
    assert_eq!(
        s.apply_event(turn, message(r#"{"content":"pon"}"#), 1),
        Ok(StreamChunk::Content("pon".to_string()))
    );
    assert_eq!(
        s.apply_event(turn, message(r#"{"content":"g"}"#), 2),
        Ok(StreamChunk::Content("g".to_string()))
    );
    assert_eq!(s.apply_event(turn, message("[DONE]"), 3), Ok(StreamChunk::Done));
    let state = s.get_state();
    assert_eq!(state.len(), 1);
    assert_eq!(state[0].response, "pong");
    assert!(!state[0].loading);
    assert_eq!(state[0].current_step, Some("completed".to_string()));
    let messages = s.get_messages();
    assert_eq!(messages.len(), 2);
    assert_eq!(messages[0], Message { role: Role::User, content: "ping".to_string() });
    assert_eq!(messages[1], Message { role: Role::Assistant, content: "pong".to_string() });
}

#[test]
fn unauthorized_answer_marks_turn_failed() {
    let mut s = session();
    let (_, turn) = s.start_turn(AnswerConfig::new("q"));
    let error = error_for_status(401, "");
    assert!(matches!(error, OramaError::Auth { .. }));
    s.fail_turn(turn, &error);
    let state = s.get_state();
    assert!(state[0].error);
    assert!(!state[0].loading);
    assert_eq!(
        state[0].error_message,
        Some("Authentication failed: Unauthorized: are you using the correct API Key?".to_string())
    );
}

#[test]
fn stream_past_time_limit_ends_with_one_timeout() {
    let mut s = session();
    let mut config = *s.get_stream_config();
    config.stream_timeout = 5;
    s.set_stream_config(config);
    let (_, turn) = s.start_turn(AnswerConfig::new("slow"));
    assert_eq!(
        s.apply_event(turn, message(r#"{"content":"par"}"#), 1),
        Ok(StreamChunk::Content("par".to_string()))
    );
    let r = s.apply_event(turn, message(r#"{"content":"tial"}"#), 5);
    assert!(is_terminal(&r));
    assert_eq!(
        r,
        Err(OramaError::Timeout { message: "Stream timeout after 5 seconds".to_string() })
    );
    let state = s.get_state();
    assert!(state[0].error);
    assert!(!state[0].loading);
    assert_eq!(state[0].error_message, Some("Stream timeout after 5 seconds".to_string()));
    assert_eq!(state[0].response, "par");
}

#[test]
fn explicit_timeout_marks_the_turn() {
    let mut s = session();
    let (_, turn) = s.start_turn(AnswerConfig::new("q"));
    let e = s.time_out(turn);
    assert_eq!(e, OramaError::Timeout { message: "Stream timeout after 300 seconds".to_string() });
    assert!(s.get_state()[0].error);
}

#[test]
fn content_chunks_concatenate() {
    let mut s = session();
    let (_, turn) = s.start_turn(AnswerConfig::new("q"));
    for part in ["Hel", "lo", "", " world"] {
        let data = format!(r#"{{"content":"{}"}}"#, part);
        assert_eq!(
            s.process_stream_data(turn, &data),
            Ok(StreamChunk::Content(part.to_string()))
        );
    }
    assert_eq!(s.get_state()[0].response, "Hello world");
    assert_eq!(s.get_messages()[1].content, "Hello world");
}

#[test]
fn content_updates_step_and_verbose_step() {
    let mut s = session();
    let (_, turn) = s.start_turn(AnswerConfig::new("q"));
    let r = s.process_stream_data(turn, r#"{"content":"a","step":"answering","verbose_step":"Writing"}"#);
    assert_eq!(r, Ok(StreamChunk::Content("a".to_string())));
    let state = s.get_state();
    assert_eq!(state[0].current_step, Some("answering".to_string()));
    assert_eq!(state[0].current_step_verbose, Some("Writing".to_string()));
}

#[test]
fn decoder_edge_cases() {
    let mut s = session();
    let (_, turn) = s.start_turn(AnswerConfig::new("q"));
    assert_eq!(s.process_stream_data(turn, ""), Ok(StreamChunk::RawData(String::new())));
    assert_eq!(
        s.process_stream_data(turn, r#"{"other":1}"#),
        Ok(StreamChunk::RawData(r#"{"other":1}"#.to_string()))
    );
    assert_eq!(
        s.apply_event(turn, SseEvent::Open, 0),
        Ok(StreamChunk::ConnectionOpened)
    );
    let before = s.get_state();
    assert_eq!(before[0].response, "");
    assert!(before[0].loading);
}

#[test]
fn partial_json_content_is_repaired() {
    let mut s = session();
    let (_, turn) = s.start_turn(AnswerConfig::new("q"));
    let r = s.process_stream_data(turn, r#"{"content": "Hello wor"#);
    assert_eq!(r, Ok(StreamChunk::Content("Hello wor".to_string())));
}

#[test]
fn upstream_error_field_fails_the_stream() {
    let mut s = session();
    let (_, turn) = s.start_turn(AnswerConfig::new("q"));
    let r = s.process_stream_data(turn, r#"{"error":"model overloaded"}"#);
    assert_eq!(r, Err(OramaError::Upstream { message: "model overloaded".to_string() }));
    assert!(is_terminal(&r));
    let state = s.get_state();
    assert!(state[0].error);
    assert_eq!(state[0].error_message, Some("model overloaded".to_string()));
}

#[test]
fn transport_error_fails_the_stream() {
    let mut s = session();
    let (_, turn) = s.start_turn(AnswerConfig::new("q"));
    let r = s.apply_event(turn, SseEvent::Error("connection reset".to_string()), 0);
    assert_eq!(
        r,
        Err(OramaError::Stream { message: "Stream event error: connection reset".to_string() })
    );
    assert_eq!(s.get_state()[0].error_message, Some("connection reset".to_string()));
}

#[test]
fn decode_payload_with_given_document() {
    let mut s = session();
    let (_, turn) = s.start_turn(AnswerConfig::new("q"));
    let doc = JsonDoc::Object(vec![
        JsonMember { key: "step".to_string(), text: Some("searching".to_string()) },
        JsonMember { key: "error".to_string(), text: Some("ignored".to_string()) },
    ]);
    assert_eq!(
        s.decode_payload(turn, "raw", Some(doc)),
        Ok(StreamChunk::StatusUpdate("searching".to_string()))
    );
    assert_eq!(s.decode_payload(turn, "raw", None), Ok(StreamChunk::RawData("raw".to_string())));
    assert_eq!(s.get_state()[0].current_step, Some("searching".to_string()));
}

#[test]
fn messages_pair_with_interactions_at_rest() {
    let mut s = session();
    for q in ["a", "b", "c"] {
        let (_, turn) = s.start_turn(AnswerConfig::new(q));
        s.apply_event(turn, message("[DONE]"), 0).unwrap();
    }
    assert_eq!(s.get_messages().len() % 2, 0);
    assert_eq!(s.get_state().len() * 2, s.get_messages().len());
}

#[test]
fn regenerate_keeps_interaction_count() {
    let mut s = session();
    let (_, t1) = s.start_turn(AnswerConfig::new("first"));
    s.complete_answer(t1, "one".to_string(), None, None);
    let (sent, t2) = s.start_turn(AnswerConfig::new("second"));
    s.complete_answer(t2, "two".to_string(), Some("[1]".to_string()), None);
    let before = s.get_state().len();
    let replay = s.regenerate_last().unwrap();
    assert_eq!(replay, sent);
    assert_eq!(s.get_state().len(), before - 1);
    assert_eq!(s.get_messages().len(), 2);
    let (again, t3) = s.start_turn(replay);
    assert_eq!(again, sent);
    s.complete_answer(t3, "two again".to_string(), None, None);
    assert_eq!(s.get_state().len(), before);
    assert_eq!(s.get_messages().len(), 4);
    assert_eq!(s.get_messages()[3].content, "two again");
}

#[test]
fn regenerate_on_fresh_session_is_invalid_state() {
    let mut s = session();
    assert!(matches!(s.regenerate_last(), Err(OramaError::InvalidState { .. })));
    let mut seeded = OramaCoreStream::with_config(
        "col".to_string(),
        CreateAiSessionConfig::new().with_initial_messages(vec![Message {
            role: Role::Assistant,
            content: "hello".to_string(),
        }]),
    );
    assert!(matches!(seeded.regenerate_last(), Err(OramaError::InvalidState { .. })));
    assert_eq!(seeded.get_messages().len(), 1);
}

#[test]
fn clear_empties_and_keeps_session_id() {
    let mut s = session();
    let id = s.session_id().to_string();
    let (_, turn) = s.start_turn(AnswerConfig::new("q"));
    s.clear_session();
    assert!(s.get_messages().is_empty());
    assert!(s.get_state().is_empty());
    assert_eq!(s.session_id(), id);
    // Events of the turn from before the clear change nothing.
    assert_eq!(
        s.process_stream_data(turn, r#"{"content":"late"}"#),
        Ok(StreamChunk::Content("late".to_string()))
    );
    assert!(s.get_state().is_empty());
    assert!(matches!(s.regenerate_last(), Err(OramaError::InvalidState { .. })));
}

#[test]
fn enrichment_fills_defaults() {
    let llm = LlmConfig { provider: LlmProvider::Claude, model: "m".to_string() };
    let mut s = OramaCoreStream::with_config(
        "col".to_string(),
        CreateAiSessionConfig::new().with_llm_config(llm.clone()),
    );
    let (sent, _) = s.start_turn(AnswerConfig::new("q"));
    assert_eq!(sent.visitor_id, Some(DEFAULT_SERVER_USER_ID.to_string()));
    assert_eq!(sent.session_id, Some(s.session_id().to_string()));
    assert_eq!(sent.llm_config, Some(llm));
    assert_eq!(sent.interaction_id.as_ref().unwrap().len(), 36);
    assert_eq!(s.get_state()[0].id, sent.interaction_id.clone().unwrap());

    let given = AnswerConfig::new("q")
        .with_visitor_id("v")
        .with_session_id("s")
        .with_interaction_id("i");
    let e = s.enrich_config(given, "fresh".to_string());
    assert_eq!(e.visitor_id, Some("v".to_string()));
    assert_eq!(e.session_id, Some("s".to_string()));
    assert_eq!(e.interaction_id, Some("i".to_string()));
    let e2 = s.enrich_config(AnswerConfig::new("q"), "fresh".to_string());
    assert_eq!(e2.interaction_id, Some("fresh".to_string()));
}

#[test]
fn complete_answer_writes_response_and_message() {
    let mut s = session();
    let (_, turn) = s.start_turn(AnswerConfig::new("q"));
    let a = s.complete_answer(turn, "42".to_string(), Some("[]".to_string()), Some("more?".to_string()));
    assert_eq!(a, "42");
    let st = &s.get_state()[0];
    assert_eq!(st.response, "42");
    assert_eq!(st.sources, Some("[]".to_string()));
    assert_eq!(st.related, Some("more?".to_string()));
    assert_eq!(st.current_step, Some("completed".to_string()));
    assert_eq!(s.get_messages()[1].content, "42");
}

#[test]
fn abort_stops_loading() {
    let mut s = session();
    let (_, turn) = s.start_turn(AnswerConfig::new("q"));
    s.abort_turn(turn);
    let st = &s.get_state()[0];
    assert!(st.aborted);
    assert!(!st.loading);
    let (_, t2) = s.start_turn(AnswerConfig::new("r"));
    s.apply_event(t2, message("[DONE]"), 0).unwrap();
    s.abort_turn(t2);
    assert!(!s.get_state()[1].aborted);
}

#[test]
fn retry_delays_back_off() {
    let c = StreamConfig::default();
    assert_eq!(c.max_retries, 3);
    assert_eq!(c.stream_timeout, 300);
    assert_eq!(c.retry_delay_ms(0), Some(1000));
    assert_eq!(c.retry_delay_ms(1), Some(2000));
    assert_eq!(c.retry_delay_ms(2), Some(4000));
    assert_eq!(c.retry_delay_ms(3), None);
    let capped = StreamConfig { max_retries: 10, initial_retry_delay: 1000, max_retry_delay: 5000, ..c };
    assert_eq!(capped.retry_delay_ms(5), Some(5000));
}

#[test]
fn collected_text_and_endpoints() {
    let mut acc = String::new();
    assert!(!collect_content(&mut acc, &StreamChunk::Content("a".to_string())));
    assert!(!collect_content(&mut acc, &StreamChunk::StatusUpdate("s".to_string())));
    assert!(!collect_content(&mut acc, &StreamChunk::Content("b".to_string())));
    assert!(collect_content(&mut acc, &StreamChunk::Done));
    assert_eq!(acc, "ab");
    let s = session();
    assert_eq!(s.answer_path(), "/v1/collections/col-1/ai/answer");
    assert_eq!(
        s.answer_stream_url("https://x.io"),
        "https://x.io/v1/collections/col-1/ai/answer/stream"
    );
}

#[test]
fn connection_failures_retry_then_fail() {
    let mut s = session();
    let (_, turn) = s.start_turn(AnswerConfig::new("q"));
    assert_eq!(
        s.connect_failed(turn, 0, "refused"),
        Ok(StreamChunk::Retry { attempt: 1, delay_ms: 1000 })
    );
    assert_eq!(
        s.connect_failed(turn, 2, "refused"),
        Ok(StreamChunk::Retry { attempt: 3, delay_ms: 4000 })
    );
    assert!(s.get_state()[0].loading);
    let r = s.connect_failed(turn, 3, "refused");
    assert_eq!(r, Err(OramaError::Stream { message: "Stream event error: refused".to_string() }));
    let st = &s.get_state()[0];
    assert!(st.error);
    assert!(!st.loading);
}
