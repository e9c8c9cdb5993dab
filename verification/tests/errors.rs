use llm_runner_router::error::LLMRouterError;

#[test]
fn test_error_creation() {
    let err = LLMRouterError::model_not_found("test-model");
    assert!(matches!(err, LLMRouterError::ModelNotFound { .. }));
    assert_eq!(err.to_message(), "Model not found: test-model");
}

#[test]
fn test_retryable_errors() {
    assert!(LLMRouterError::network("test").is_retryable());
    assert!(LLMRouterError::timeout("test", None).is_retryable());
    assert!(!LLMRouterError::authentication("test").is_retryable());
    assert!(!LLMRouterError::validation("test", None).is_retryable());
}

#[test]
fn test_retry_delay() {
    let rate_limit_err = LLMRouterError::rate_limit("rate limited", Some(60000));
    assert_eq!(rate_limit_err.retry_delay(), Some(60000));
}

#[test]
fn test_fixed_retry_delays() {
    assert_eq!(LLMRouterError::timeout("t", None).retry_delay(), Some(2000));
    assert_eq!(LLMRouterError::network("n").retry_delay(), Some(1000));
    assert_eq!(LLMRouterError::validation("v", None).retry_delay(), None);
    assert_eq!(LLMRouterError::rate_limit("r", None).retry_delay(), None);
}

#[test]
fn test_http_status_retryability() {
    assert!(LLMRouterError::http(500, "server", None).is_retryable());
    assert!(LLMRouterError::http(599, "server", None).is_retryable());
    assert!(LLMRouterError::http(429, "limited", None).is_retryable());
    assert!(LLMRouterError::http(408, "timeout", None).is_retryable());
    assert!(!LLMRouterError::http(404, "missing", None).is_retryable());
    assert!(!LLMRouterError::http(400, "bad", None).is_retryable());
}

#[test]
fn test_grpc_status_retryability() {
    assert!(LLMRouterError::grpc("unavailable", Some(14)).is_retryable());
    assert!(LLMRouterError::grpc("deadline", Some(4)).is_retryable());
    assert!(LLMRouterError::grpc("exhausted", Some(8)).is_retryable());
    assert!(LLMRouterError::grpc("unknown", Some(2)).is_retryable());
    assert!(!LLMRouterError::grpc("internal", Some(13)).is_retryable());
    assert!(!LLMRouterError::grpc("no code", None).is_retryable());
}

#[test]
fn test_error_from_status() {
    assert!(matches!(
        LLMRouterError::from_status(401, "denied"),
        LLMRouterError::Authentication { .. }
    ));
    assert!(matches!(
        LLMRouterError::from_status(403, "denied"),
        LLMRouterError::Authentication { .. }
    ));
    assert!(matches!(
        LLMRouterError::from_status(404, "missing"),
        LLMRouterError::ModelNotFound { .. }
    ));
    assert!(matches!(
        LLMRouterError::from_status(408, "slow"),
        LLMRouterError::Timeout { .. }
    ));
    assert!(matches!(
        LLMRouterError::from_status(429, "limited"),
        LLMRouterError::RateLimit { .. }
    ));
    assert!(matches!(
        LLMRouterError::from_status(400, "bad"),
        LLMRouterError::Validation { .. }
    ));
    let server_err = LLMRouterError::from_status(503, "down");
    assert!(matches!(server_err, LLMRouterError::Http { status: 503, .. }));
    assert!(server_err.is_retryable());
    assert!(matches!(
        LLMRouterError::from_status(302, "moved"),
        LLMRouterError::Network { .. }
    ));
}

#[test]
fn test_error_from_transport_flags() {
    let timeout = LLMRouterError::from_transport_flags(true, false, false);
    assert!(matches!(
        timeout,
        LLMRouterError::Timeout {
            timeout_ms: Some(30000),
            ..
        }
    ));
    assert!(matches!(
        LLMRouterError::from_transport_flags(false, true, false),
        LLMRouterError::Network { .. }
    ));
    assert!(matches!(
        LLMRouterError::from_transport_flags(false, false, true),
        LLMRouterError::Validation { .. }
    ));
    assert!(matches!(
        LLMRouterError::from_transport_flags(false, false, false),
        LLMRouterError::Network { .. }
    ));
}

#[test]
fn test_grpc_classification() {
    let err = LLMRouterError::from_grpc_status(14, "connect failed");
    match &err {
        LLMRouterError::Grpc { message, status_code } => {
            assert_eq!(message, "gRPC error: connect failed");
            assert_eq!(*status_code, Some(14));
        }
        other => panic!("expected a gRPC error, got {:?}", other),
    }
    assert!(err.is_retryable());
    assert!(!LLMRouterError::from_grpc_status(3, "bad argument").is_retryable());
}

#[test]
fn test_error_messages() {
    assert_eq!(
        LLMRouterError::network("down").to_message(),
        "Network error: down"
    );
    assert_eq!(
        LLMRouterError::http(503, "unavailable", None).to_message(),
        "HTTP error: 503 - unavailable"
    );
    assert_eq!(
        LLMRouterError::streaming("broken").to_message(),
        "Streaming error: broken"
    );
    assert_eq!(LLMRouterError::other("misc").to_message(), "Error: misc");
}

#[test]
fn test_every_variant_constructible() {
    assert!(matches!(
        LLMRouterError::configuration("c"),
        LLMRouterError::Configuration { .. }
    ));
    assert!(matches!(
        LLMRouterError::streaming("s"),
        LLMRouterError::Streaming { .. }
    ));
    assert!(matches!(
        LLMRouterError::websocket("w"),
        LLMRouterError::WebSocket { .. }
    ));
    assert!(matches!(
        LLMRouterError::serialization("s"),
        LLMRouterError::Serialization { .. }
    ));
    assert!(matches!(
        LLMRouterError::inference("i", Some("m".to_string())),
        LLMRouterError::Inference { .. }
    ));
    assert!(matches!(LLMRouterError::other("o"), LLMRouterError::Other { .. }));
}
