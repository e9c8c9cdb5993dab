use llm_runner_router::config::{ConnectionPoolConfig, RateLimitConfig, RouterConfig, TlsConfig};
use llm_runner_router::error::LLMRouterError;

#[test]
fn test_default_config() {
    let config = RouterConfig::default();
    assert_eq!(config.base_url, "http://localhost:3000");
    assert_eq!(config.timeout_ms, 30000);
    assert_eq!(config.max_retries, 3);
}

#[test]
fn test_config_builder() {
    let config = RouterConfig::new("http://example.com:8080")
        .timeout(60000)
        .max_retries(5)
        .api_key("test-key");

    assert_eq!(config.base_url, "http://example.com:8080");
    assert_eq!(config.timeout_ms, 60000);
    assert_eq!(config.max_retries, 5);
    assert_eq!(config.api_key, Some("test-key".to_string()));
}

#[test]
fn test_websocket_url_derivation() {
    let config = RouterConfig::new("http://example.com:3000");
    assert_eq!(config.get_websocket_url(), "ws://example.com:3000/ws");

    let config = RouterConfig::new("https://example.com:3000");
    assert_eq!(config.get_websocket_url(), "wss://example.com:3000/ws");
}

#[test]
fn test_websocket_url_explicit() {
    let config = RouterConfig::new("http://example.com").websocket_url("ws://other/ws");
    assert_eq!(config.get_websocket_url(), "ws://other/ws");
}

#[test]
fn test_tls_detection() {
    let config = RouterConfig::new("http://example.com");
    assert!(!config.is_tls_enabled());

    let config = RouterConfig::new("https://example.com");
    assert!(config.is_tls_enabled());
}

#[test]
fn test_auth_headers() {
    let config = RouterConfig::new("http://example.com").api_key("test-key");
    let headers = config.get_auth_headers();

    assert!(headers
        .iter()
        .any(|(k, v)| k == "Authorization" && v == "Bearer test-key"));
    assert!(headers.iter().any(|(k, _)| k == "User-Agent"));
}

#[test]
fn test_auth_headers_without_key() {
    let config = RouterConfig::new("http://example.com");
    let headers = config.get_auth_headers();
    assert_eq!(headers.len(), 1);
    assert_eq!(headers[0].0, "User-Agent");
}

#[test]
fn test_config_validation() {
    // Valid config
    let config = RouterConfig::new("http://example.com");
    assert!(config.validate().is_ok());

    // Invalid URL
    let config = RouterConfig::new("not-a-url");
    assert!(config.validate().is_err());

    // Zero timeout
    let config = RouterConfig::new("http://example.com").timeout(0);
    assert!(config.validate().is_err());
}

#[test]
fn test_config_validation_details() {
    let config = RouterConfig::new("not-a-url");
    match config.validate() {
        Err(LLMRouterError::Configuration { message }) => {
            assert_eq!(message, "Invalid base URL");
        }
        other => panic!("expected a configuration error, got {:?}", other),
    }

    // A gRPC URL without a scheme is taken as host:port and passes.
    let config = RouterConfig::new("http://example.com").grpc_url("localhost:50051");
    assert!(config.validate().is_ok());

    // A gRPC URL with a broken scheme fails.
    let config = RouterConfig::new("http://example.com").grpc_url("://broken");
    assert!(config.validate().is_err());

    // A pool without connections fails.
    let mut pool = ConnectionPoolConfig::default();
    pool.max_connections_per_host = 0;
    let config = RouterConfig::new("http://example.com").connection_pool(pool);
    assert!(config.validate().is_err());
}

#[test]
fn test_sub_config_defaults() {
    let pool = ConnectionPoolConfig::default();
    assert_eq!(pool.max_idle_connections, 10);
    assert_eq!(pool.max_connections_per_host, 20);
    assert_eq!(pool.idle_timeout_ms, 90000);
    assert_eq!(pool.connect_timeout_ms, 10000);

    let rate = RateLimitConfig::default();
    assert_eq!(rate.requests_per_minute, 100);
    assert_eq!(rate.burst_capacity, 10);
    assert!(rate.enabled);

    let tls = TlsConfig::default();
    assert!(tls.verify_ssl);
    assert!(tls.ca_cert_path.is_none());
}
