use llm_runner_router::batch::{run_batch, BatchCollector, BatchGate, BatchOptions};
use llm_runner_router::error::LLMRouterError;
use llm_runner_router::models::InferenceResponse;

fn ok_response(text: &str) -> InferenceResponse {
    InferenceResponse {
        text: text.to_string(),
        model_id: None,
        metrics: None,
        success: true,
        error: None,
    }
}

#[test]
fn test_batch_preserves_submission_order() {
    // Four requests submitted as A, B, C, D complete as D, A, C, B; the
    // outcome list is still A, B, C, D.
    let scripts = vec![
        Ok(ok_response("A")),
        Ok(ok_response("B")),
        Ok(ok_response("C")),
        Ok(ok_response("D")),
    ];
    let order = vec![3, 0, 2, 1];
    let options = BatchOptions { max_concurrent: 4, timeout_ms: 30000, fail_fast: false };
    let summary = run_batch(scripts, &order, &options, 12);

    assert_eq!(summary.total, 4);
    assert_eq!(summary.succeeded, 4);
    assert_eq!(summary.failed, 0);
    assert_eq!(summary.elapsed_ms, 12);
    let texts: Vec<String> = summary
        .outcomes
        .iter()
        .map(|o| o.result.as_ref().unwrap().text.clone())
        .collect();
    assert_eq!(texts, vec!["A", "B", "C", "D"]);
    for (i, outcome) in summary.outcomes.iter().enumerate() {
        assert_eq!(outcome.index, i);
    }
}

#[test]
fn test_batch_counts_one_validation_failure() {
    // A batch of four with one permanently failing validation request:
    // three succeed, one fails, nothing else is disturbed.
    let scripts = vec![
        Ok(ok_response("A")),
        Err(LLMRouterError::validation("bad prompt", None)),
        Ok(ok_response("C")),
        Ok(ok_response("D")),
    ];
    let order = vec![0, 1, 2, 3];
    let options = BatchOptions { max_concurrent: 2, timeout_ms: 30000, fail_fast: false };
    let summary = run_batch(scripts, &order, &options, 0);

    assert_eq!(summary.total, 4);
    assert_eq!(summary.succeeded, 3);
    assert_eq!(summary.failed, 1);
    assert!(summary.outcomes[1].result.is_err());
}

#[test]
fn test_batch_unfinished_marked_timeout() {
    // Requests that never complete are failed with a timeout error.
    let scripts = vec![Ok(ok_response("A")), Ok(ok_response("B")), Ok(ok_response("C"))];
    let order = vec![2, 0];
    let options = BatchOptions { max_concurrent: 2, timeout_ms: 5, fail_fast: false };
    let summary = run_batch(scripts, &order, &options, 5);

    assert_eq!(summary.total, 3);
    assert_eq!(summary.succeeded, 2);
    assert_eq!(summary.failed, 1);
    match &summary.outcomes[1].result {
        Err(LLMRouterError::Timeout { message, .. }) => assert_eq!(message, "Batch timeout"),
        other => panic!("expected a timeout, got {:?}", other),
    }
}

#[test]
fn test_batch_fail_fast_stops_dispatch() {
    // Under fail-fast, outcomes arriving after the first failure are not
    // recorded; those requests end as timeouts.
    let scripts = vec![
        Ok(ok_response("A")),
        Err(LLMRouterError::http(500, "boom", None)),
        Ok(ok_response("C")),
        Ok(ok_response("D")),
    ];
    let order = vec![0, 1, 2, 3];
    let options = BatchOptions { max_concurrent: 2, timeout_ms: 30000, fail_fast: true };
    let summary = run_batch(scripts, &order, &options, 0);

    assert_eq!(summary.total, 4);
    assert_eq!(summary.succeeded, 1);
    assert_eq!(summary.failed, 3);
    assert!(summary.outcomes[0].result.is_ok());
    assert!(summary.outcomes[1].result.is_err());
    assert!(matches!(
        summary.outcomes[2].result,
        Err(LLMRouterError::Timeout { .. })
    ));
    assert!(matches!(
        summary.outcomes[3].result,
        Err(LLMRouterError::Timeout { .. })
    ));
}

#[test]
fn test_collector_direct_use() {
    let mut collector = BatchCollector::new(2, false);
    assert!(collector.should_dispatch());
    collector.record(1, Ok(ok_response("late")));
    collector.record(0, Err(LLMRouterError::network("down")));
    assert!(collector.should_dispatch());
    let summary = collector.finish(7);
    assert_eq!(summary.total, 2);
    assert_eq!(summary.succeeded, 1);
    assert_eq!(summary.failed, 1);
    assert_eq!(summary.outcomes[0].index, 0);
    assert!(summary.outcomes[0].result.is_err());
    assert!(summary.outcomes[1].result.is_ok());
}

#[test]
fn test_gate_respects_cap() {
    let mut gate = BatchGate::new(2);
    assert!(gate.try_acquire());
    assert!(gate.try_acquire());
    assert!(!gate.try_acquire());
    gate.release();
    assert!(gate.try_acquire());
    assert_eq!(gate.in_flight, 2);
}

#[test]
fn test_empty_batch() {
    let scripts: Vec<Result<InferenceResponse, LLMRouterError>> = Vec::new();
    let order: Vec<usize> = Vec::new();
    let options = BatchOptions { max_concurrent: 1, timeout_ms: 1, fail_fast: false };
    let summary = run_batch(scripts, &order, &options, 0);
    assert_eq!(summary.total, 0);
    assert_eq!(summary.succeeded, 0);
    assert_eq!(summary.failed, 0);
    assert!(summary.outcomes.is_empty());
}
