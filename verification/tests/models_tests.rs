use llm_runner_router::models::{
    chat_prompt, BatchInferenceRequest, ChatMessage, HealthStatus, InferenceOptions,
    InferenceRequest, LoadModelRequest,
};

#[test]
fn test_inference_options_builder() {
    let options = InferenceOptions::new()
        .max_tokens(100)
        .temperature(800)
        .stream(true);

    assert_eq!(options.max_tokens, Some(100));
    assert_eq!(options.temperature_milli, Some(800));
    assert_eq!(options.stream, Some(true));
}

#[test]
fn test_inference_options_clamping() {
    let options = InferenceOptions::new().temperature(5000).top_p(2000);
    assert_eq!(options.temperature_milli, Some(2000));
    assert_eq!(options.top_p_milli, Some(1000));
}

#[test]
fn test_inference_options_defaults() {
    let options = InferenceOptions::default();
    assert_eq!(options.max_tokens, Some(500));
    assert_eq!(options.temperature_milli, Some(700));
    assert_eq!(options.top_p_milli, Some(1000));
    assert_eq!(options.stream, Some(false));
    assert!(options.stop_sequences.is_none());
}

#[test]
fn test_stop_sequences_accumulate() {
    let options = InferenceOptions::new()
        .stop_sequence("###")
        .stop_sequence("END");
    let stops = options.stop_sequences.unwrap();
    assert_eq!(stops, vec!["###".to_string(), "END".to_string()]);
}

#[test]
fn test_inference_request_builder() {
    let request = InferenceRequest::new("Hello, world!")
        .model_id("test-model")
        .session_id("session-123");

    assert_eq!(request.prompt, "Hello, world!");
    assert_eq!(request.model_id, Some("test-model".to_string()));
    assert_eq!(request.session_id, Some("session-123".to_string()));
}

#[test]
fn test_inference_request_creation() {
    let request = InferenceRequest::new("Test prompt")
        .model_id("test-model")
        .options(InferenceOptions::new().max_tokens(100));

    assert_eq!(request.prompt, "Test prompt");
    assert_eq!(request.model_id, Some("test-model".to_string()));
    assert_eq!(request.options.unwrap().max_tokens, Some(100));
}

#[test]
fn test_enable_streaming() {
    let mut request = InferenceRequest::new("hi");
    request.enable_streaming();
    assert_eq!(request.options.as_ref().unwrap().stream, Some(true));

    // Existing options keep their settings.
    let mut request = InferenceRequest::new("hi").options(InferenceOptions::new().max_tokens(7));
    request.enable_streaming();
    let options = request.options.unwrap();
    assert_eq!(options.stream, Some(true));
    assert_eq!(options.max_tokens, Some(7));
}

#[test]
fn test_chat_message_creation() {
    let user_msg = ChatMessage::user("Hello");
    let assistant_msg = ChatMessage::assistant("Hi there!");
    let system_msg = ChatMessage::system("You are a helpful assistant");

    assert_eq!(user_msg.role, "user");
    assert_eq!(assistant_msg.role, "assistant");
    assert_eq!(system_msg.role, "system");
}

#[test]
fn test_chat_message_timestamps() {
    let msg = ChatMessage::user("Hello");
    assert!(msg.timestamp_ms.is_some());
    assert_eq!(msg.content, "Hello");
}

#[test]
fn test_chat_prompt_join() {
    let messages = vec![
        ChatMessage::system("Be brief"),
        ChatMessage::user("Hi"),
        ChatMessage::assistant("Hello"),
    ];
    assert_eq!(chat_prompt(&messages), "system: Be brief\nuser: Hi\nassistant: Hello");

    let one = vec![ChatMessage::user("only")];
    assert_eq!(chat_prompt(&one), "user: only");

    let none: Vec<ChatMessage> = Vec::new();
    assert_eq!(chat_prompt(&none), "");
}

#[test]
fn test_load_model_request_builder() {
    let request = LoadModelRequest::new("./model.gguf")
        .format("gguf")
        .id("test-model")
        .force_reload(true);

    assert_eq!(request.source, "./model.gguf");
    assert_eq!(request.format, Some("gguf".to_string()));
    assert_eq!(request.id, Some("test-model".to_string()));
    assert_eq!(request.force_reload, true);
}

#[test]
fn test_batch_inference_request() {
    let requests = vec![
        InferenceRequest::new("First prompt"),
        InferenceRequest::new("Second prompt"),
    ];

    let batch = BatchInferenceRequest::new(requests)
        .max_concurrent(3)
        .timeout_ms(60000)
        .fail_fast(true);

    assert_eq!(batch.requests.len(), 2);
    assert_eq!(batch.max_concurrent, Some(3));
    assert_eq!(batch.timeout_ms, Some(60000));
    assert_eq!(batch.fail_fast, true);
}

#[test]
fn test_health_status_default() {
    assert_eq!(HealthStatus::default(), HealthStatus::Unknown);
}
