use llm_runner_router::error::LLMRouterError;
use llm_runner_router::retry::{run_retries, RetryConfig, RetryDecision};

#[test]
fn test_retry_config() {
    let config = RetryConfig::new()
        .max_retries(5)
        .base_delay(500)
        .max_delay(30000)
        .backoff_multiplier(150)
        .jitter(false);

    assert_eq!(config.max_retries, 5);
    assert_eq!(config.base_delay_ms, 500);
    assert_eq!(config.max_delay_ms, 30000);
    assert_eq!(config.backoff_multiplier_percent, 150);
    assert!(!config.jitter);
}

#[test]
fn test_backoff_delay_calculation() {
    let config = RetryConfig::new()
        .base_delay(100)
        .backoff_multiplier(200)
        .jitter(false);

    let delay0 = config.calculate_delay(0, None);
    let delay1 = config.calculate_delay(1, None);
    let delay2 = config.calculate_delay(2, None);

    assert_eq!(delay0, 100);
    assert_eq!(delay1, 200);
    assert_eq!(delay2, 400);
}

#[test]
fn test_backoff_caps_at_max_delay() {
    let config = RetryConfig::new()
        .base_delay(100)
        .max_delay(350)
        .backoff_multiplier(200)
        .jitter(false);
    assert_eq!(config.calculate_delay(0, None), 100);
    assert_eq!(config.calculate_delay(1, None), 200);
    assert_eq!(config.calculate_delay(2, None), 350);
    assert_eq!(config.calculate_delay(20, None), 350);
}

#[test]
fn test_fractional_multiplier() {
    let config = RetryConfig::new()
        .base_delay(100)
        .backoff_multiplier(150)
        .jitter(false);
    assert_eq!(config.calculate_delay(0, None), 100);
    assert_eq!(config.calculate_delay(1, None), 150);
    assert_eq!(config.calculate_delay(2, None), 225);
}

#[test]
fn test_suggested_delay_wins() {
    let config = RetryConfig::new()
        .base_delay(100)
        .max_delay(60000)
        .jitter(false);
    // A network failure suggests one second regardless of the attempt.
    let err = LLMRouterError::network("down");
    assert_eq!(config.calculate_delay(0, Some(&err)), 1000);
    assert_eq!(config.calculate_delay(5, Some(&err)), 1000);
    // A server-supplied retry-after is used, capped at the maximum.
    let rl = LLMRouterError::rate_limit("slow down", Some(90000));
    assert_eq!(config.calculate_delay(0, Some(&rl)), 60000);
    let rl2 = LLMRouterError::rate_limit("slow down", Some(5000));
    assert_eq!(config.calculate_delay(0, Some(&rl2)), 5000);
}

#[test]
fn test_jitter_stays_within_quarter() {
    let config = RetryConfig::new()
        .base_delay(1000)
        .backoff_multiplier(200)
        .jitter(true);
    for _ in 0..50 {
        let d = config.calculate_delay(0, None);
        assert!((750..=1250).contains(&d), "jittered delay {} out of range", d);
    }
}

#[test]
fn test_retry_success() {
    // Fails twice with a retryable error, then succeeds: three invocations.
    let config = RetryConfig::new().max_retries(3).base_delay(10).jitter(false);
    let outcomes: Vec<Result<&str, LLMRouterError>> = vec![
        Err(LLMRouterError::network("Temporary failure")),
        Err(LLMRouterError::network("Temporary failure")),
        Ok("Success"),
        Ok("Success"),
    ];
    let run = run_retries(&config, outcomes);
    assert!(run.result.is_ok());
    assert_eq!(run.result.unwrap(), "Success");
    assert_eq!(run.attempts, 3);
}

#[test]
fn test_retry_failure() {
    // Persistent retryable failure: initial attempt plus two retries.
    let config = RetryConfig::new().max_retries(2).base_delay(10).jitter(false);
    let outcomes: Vec<Result<&str, LLMRouterError>> = vec![
        Err(LLMRouterError::network("Persistent failure")),
        Err(LLMRouterError::network("Persistent failure")),
        Err(LLMRouterError::network("Persistent failure")),
    ];
    let run = run_retries(&config, outcomes);
    assert!(run.result.is_err());
    assert_eq!(run.attempts, 3);
}

#[test]
fn test_non_retryable_error() {
    // A validation failure is never retried.
    let config = RetryConfig::new().max_retries(3).base_delay(10).jitter(false);
    let outcomes: Vec<Result<&str, LLMRouterError>> = vec![
        Err(LLMRouterError::validation("Invalid input", None)),
        Ok("never reached"),
        Ok("never reached"),
        Ok("never reached"),
    ];
    let run = run_retries(&config, outcomes);
    assert!(run.result.is_err());
    assert_eq!(run.attempts, 1);
    assert!(run.delays_ms.is_empty());
}

#[test]
fn test_retry_scenario_exponential_sleeps() {
    // Policy: two retries, 100ms base, doubling, no jitter. The operation
    // fails twice with a retryable server error that carries no suggested
    // delay, then succeeds: the engine sleeps 100ms then 200ms and makes
    // three invocations in all.
    let config = RetryConfig::new()
        .max_retries(2)
        .base_delay(100)
        .max_delay(60000)
        .backoff_multiplier(200)
        .jitter(false);
    let outcomes: Vec<Result<u32, LLMRouterError>> = vec![
        Err(LLMRouterError::http(500, "boom", None)),
        Err(LLMRouterError::http(500, "boom", None)),
        Ok(7),
    ];
    let run = run_retries(&config, outcomes);
    assert!(run.result.is_ok());
    assert_eq!(run.attempts, 3);
    assert_eq!(run.delays_ms, vec![100, 200]);
}

#[test]
fn test_retry_scenario_network_uses_suggested_delay() {
    // The same shape with a network error: its suggested one second delay
    // overrides the exponential schedule.
    let config = RetryConfig::new()
        .max_retries(2)
        .base_delay(100)
        .max_delay(60000)
        .backoff_multiplier(200)
        .jitter(false);
    let outcomes: Vec<Result<u32, LLMRouterError>> = vec![
        Err(LLMRouterError::network("down")),
        Err(LLMRouterError::network("down")),
        Ok(7),
    ];
    let run = run_retries(&config, outcomes);
    assert!(run.result.is_ok());
    assert_eq!(run.attempts, 3);
    assert_eq!(run.delays_ms, vec![1000, 1000]);
}

#[test]
fn test_next_step_decisions() {
    let config = RetryConfig::new().max_retries(2).base_delay(100).jitter(false);
    let retryable = LLMRouterError::http(500, "boom", None);
    let fatal = LLMRouterError::authentication("denied");

    assert_eq!(
        config.next_step(0, &retryable),
        RetryDecision::Retry { delay_ms: 100 }
    );
    assert_eq!(
        config.next_step(1, &retryable),
        RetryDecision::Retry { delay_ms: 200 }
    );
    assert_eq!(config.next_step(2, &retryable), RetryDecision::GiveUp);
    assert_eq!(config.next_step(0, &fatal), RetryDecision::GiveUp);
}

#[test]
fn test_default_retry_config() {
    let config = RetryConfig::default();
    assert_eq!(config.max_retries, 3);
    assert_eq!(config.base_delay_ms, 1000);
    assert_eq!(config.max_delay_ms, 60000);
    assert_eq!(config.backoff_multiplier_percent, 200);
    assert!(config.jitter);
}
