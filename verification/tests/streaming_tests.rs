use llm_runner_router::models::InferenceRequest;
use llm_runner_router::session::{generate_uuid, RequestContext, SessionStore};
use llm_runner_router::streaming::{decode_frames, StreamDecoder};

#[test]
fn test_stream_two_chunks() {
    // A source yields a token chunk and then a completion chunk: the
    // decoder yields exactly two chunks, the second complete.
    let mut decoder = StreamDecoder::new();
    let first = decoder
        .feed(b"data: {\"token\":\"Hi\",\"is_complete\":false}\n")
        .expect("first chunk");
    assert_eq!(first.token, "Hi");
    assert!(!first.is_complete);
    assert!(first.error.is_none());

    let second = decoder
        .feed(b"data: {\"token\":\"\",\"is_complete\":true}\n")
        .expect("second chunk");
    assert_eq!(second.token, "");
    assert!(second.is_complete);
    assert!(decoder.finished());
}

#[test]
fn test_no_chunk_after_completion() {
    // Once a complete chunk was produced, later frames yield nothing.
    let frames: Vec<Vec<u8>> = vec![
        b"data: {\"token\":\"a\",\"is_complete\":false}\n".to_vec(),
        b"data: {\"token\":\"b\",\"is_complete\":true}\n".to_vec(),
        b"data: {\"token\":\"c\",\"is_complete\":false}\n".to_vec(),
        b"data: {\"token\":\"d\",\"is_complete\":false}\n".to_vec(),
    ];
    let chunks = decode_frames(&frames);
    assert_eq!(chunks.len(), 2);
    assert_eq!(chunks[0].token, "a");
    assert!(!chunks[0].is_complete);
    assert_eq!(chunks[1].token, "b");
    assert!(chunks[1].is_complete);
}

#[test]
fn test_frame_without_data_line_continues() {
    let mut decoder = StreamDecoder::new();
    assert!(decoder.feed(b": keep-alive comment\n\n").is_none());
    assert!(!decoder.finished());
    let chunk = decoder
        .feed(b"event: token\ndata: {\"token\":\"x\",\"is_complete\":false}\n")
        .expect("chunk after skipped frame");
    assert_eq!(chunk.token, "x");
}

#[test]
fn test_invalid_utf8_yields_error_chunk() {
    let mut decoder = StreamDecoder::new();
    let chunk = decoder.feed(&[0xff, 0xfe, b'\n']).expect("error chunk");
    assert_eq!(chunk.error.as_deref(), Some("Invalid UTF-8 in stream"));
    assert!(!chunk.is_complete);
    assert!(decoder.finished());
    assert!(decoder.feed(b"data: {\"token\":\"x\",\"is_complete\":false}\n").is_none());
}

#[test]
fn test_malformed_payload_yields_error_chunk() {
    let mut decoder = StreamDecoder::new();
    let chunk = decoder.feed(b"data: {\"token\":\"x\"\n").expect("error chunk");
    assert_eq!(chunk.error.as_deref(), Some("Failed to parse stream chunk"));
    assert!(decoder.finished());
}

#[test]
fn test_missing_required_field_is_malformed() {
    let mut decoder = StreamDecoder::new();
    let chunk = decoder.feed(b"data: {\"token\":\"x\"}\n").expect("error chunk");
    assert_eq!(chunk.error.as_deref(), Some("Failed to parse stream chunk"));
}

#[test]
fn test_in_band_error_terminates() {
    let frames: Vec<Vec<u8>> = vec![
        b"data: {\"token\":\"a\",\"is_complete\":false}\n".to_vec(),
        b"data: {\"token\":\"\",\"is_complete\":false,\"error\":\"backend failed\"}\n".to_vec(),
        b"data: {\"token\":\"c\",\"is_complete\":false}\n".to_vec(),
    ];
    let chunks = decode_frames(&frames);
    assert_eq!(chunks.len(), 2);
    assert!(chunks[0].error.is_none());
    assert_eq!(chunks[1].error.as_deref(), Some("backend failed"));
}

#[test]
fn test_chunk_extras_and_escapes() {
    let mut decoder = StreamDecoder::new();
    let chunk = decoder
        .feed(
            b"data: {\"token\":\"a\\nb\\u0041\",\"is_complete\":false,\"model_id\":\"m1\",\"metrics\":{\"latency_ms\":5,\"nested\":[1,2,{}]}}\n",
        )
        .expect("chunk");
    assert_eq!(chunk.token, "a\nbA");
    assert_eq!(chunk.model_id.as_deref(), Some("m1"));
    assert!(chunk.error.is_none());
}

#[test]
fn test_surrogate_pair_escape() {
    let mut decoder = StreamDecoder::new();
    let chunk = decoder
        .feed(b"data: {\"token\":\"\\uD83D\\uDE00\",\"is_complete\":false}\n")
        .expect("chunk");
    assert_eq!(chunk.token, "\u{1F600}");
}

#[test]
fn test_null_error_field_is_absent() {
    let mut decoder = StreamDecoder::new();
    let chunk = decoder
        .feed(b"data: {\"token\":\"t\",\"is_complete\":false,\"error\":null,\"model_id\":null}\n")
        .expect("chunk");
    assert!(chunk.error.is_none());
    assert!(chunk.model_id.is_none());
    assert!(!decoder.finished());
}

#[test]
fn test_duplicate_field_is_malformed() {
    let mut decoder = StreamDecoder::new();
    let chunk = decoder
        .feed(b"data: {\"token\":\"a\",\"token\":\"b\",\"is_complete\":false}\n")
        .expect("error chunk");
    assert_eq!(chunk.error.as_deref(), Some("Failed to parse stream chunk"));
}

#[test]
fn test_carriage_return_stripped() {
    let mut decoder = StreamDecoder::new();
    let chunk = decoder
        .feed(b"data: {\"token\":\"ok\",\"is_complete\":true}\r\n")
        .expect("chunk");
    assert_eq!(chunk.token, "ok");
    assert!(chunk.is_complete);
}

#[test]
fn test_session_management() {
    let mut store = SessionStore::new();

    assert!(store.get_session_id().is_none());

    store.set_session_id("test-session");
    assert_eq!(store.get_session_id(), Some("test-session".to_string()));

    store.clear_session();
    assert!(store.get_session_id().is_none());
}

#[test]
fn test_session_applied_only_when_unset() {
    let mut store = SessionStore::new();
    store.set_session_id("shared");

    let mut request = InferenceRequest::new("hi");
    store.apply_to(&mut request);
    assert_eq!(request.session_id, Some("shared".to_string()));

    let mut pinned = InferenceRequest::new("hi").session_id("own");
    store.apply_to(&mut pinned);
    assert_eq!(pinned.session_id, Some("own".to_string()));
}

#[test]
fn test_generate_uuid_shape() {
    let a = generate_uuid();
    let b = generate_uuid();
    assert_eq!(a.len(), 36);
    assert_eq!(b.len(), 36);
    assert_ne!(a, b);
    assert_eq!(a.chars().filter(|c| *c == '-').count(), 4);
}

#[test]
fn test_request_context() {
    let mut ctx = RequestContext::new();
    assert_eq!(ctx.attempt_count, 0);
    ctx.record_attempt();
    ctx.record_attempt();
    assert_eq!(ctx.attempt_count, 2);

    ctx.deadline_ms = Some(1000);
    assert!(!ctx.deadline_passed(1000));
    assert!(ctx.deadline_passed(1001));
}
