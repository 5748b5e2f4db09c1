use kevgir::pipeline::{KeyPipeline, PipelineState, RetryPolicy, RoofStep, RoofStepResult};
use kevgir::platform::{
    classify_http_status, ApplyError, MigrosActivateResponse, MigrosErrorMessage, ResponseClass,
};
use kevgir::sink::{outcome_line, step_name, ResultSink};

#[test]
fn happy_path_walks_all_four_stages() {
    let mut p = KeyPipeline::new();
    assert_eq!(p.current_step(), Some(RoofStep::KeyFiltrele));
    p.record(Ok(()));
    assert_eq!(p.current_step(), Some(RoofStep::MenuGetir));
    p.record(Ok(()));
    assert_eq!(p.current_step(), Some(RoofStep::Flagger));
    p.record(Ok(()));
    assert_eq!(p.current_step(), Some(RoofStep::IstekAt));
    p.record(Ok(()));
    assert_eq!(p.current_step(), None);
    assert_eq!(p.state, PipelineState::Done);
    assert_eq!(p.outcomes.len(), 4);
    assert!(p.outcomes.iter().all(|o| o.result.is_ok()));
}

#[test]
fn failure_halts_the_key_immediately() {
    let mut p = KeyPipeline::new();
    p.record(Ok(()));
    p.record(Err("fetch timed out".to_string()));
    assert_eq!(p.state, PipelineState::Failed(RoofStep::MenuGetir));
    assert_eq!(p.current_step(), None);
    assert_eq!(p.outcomes.len(), 2);
    assert!(p.outcomes[0].result.is_ok());
    assert!(p.outcomes[1].result.is_err());
    // No apply outcome exists for a key whose fetch failed.
    assert!(p.outcomes.iter().all(|o| o.step != RoofStep::IstekAt));
}

#[test]
fn flag_failure_prevents_apply() {
    let mut p = KeyPipeline::new();
    p.record(Ok(()));
    p.record(Ok(()));
    p.record(Err("diff impossible".to_string()));
    assert_eq!(p.state, PipelineState::Failed(RoofStep::Flagger));
    assert_eq!(p.current_step(), None);
    assert!(p.outcomes.iter().all(|o| o.step != RoofStep::IstekAt));
}

#[test]
fn first_stage_failure_records_one_outcome() {
    let mut p = KeyPipeline::new();
    p.record(Err("no keys".to_string()));
    assert_eq!(p.state, PipelineState::Failed(RoofStep::KeyFiltrele));
    assert_eq!(p.outcomes.len(), 1);
}

#[test]
fn batch_of_keys_yields_at_most_four_outcomes_each() {
    let scripts: Vec<Vec<Result<(), String>>> = vec![
        vec![Ok(()), Ok(()), Ok(()), Ok(())],
        vec![Ok(()), Err("boom".to_string())],
        vec![Ok(()), Ok(()), Ok(()), Ok(())],
    ];
    let n = scripts.len();
    let mut sink = ResultSink::new();
    let mut total = 0;
    for (key_idx, script) in scripts.into_iter().enumerate() {
        let mut p = KeyPipeline::new();
        for result in script {
            assert!(p.current_step().is_some());
            p.record(result);
        }
        total += p.outcomes.len();
        let key = format!("key-{}", key_idx);
        for outcome in &p.outcomes {
            sink.append_line(outcome_line(&key, outcome));
        }
    }
    assert_eq!(total, 10);
    assert!(total <= 4 * n);
    assert_eq!(sink.len(), 10);
    assert_eq!(sink.line_at(4).as_str(), "key-1 | KeyFiltrele | ok");
    assert_eq!(sink.line_at(5).as_str(), "key-1 | MenuGetir | err: boom");
}

#[test]
fn sink_appends_exactly_one_line_per_outcome() {
    let mut sink = ResultSink::new();
    assert_eq!(sink.len(), 0);
    sink.append_line("first".to_string());
    sink.append_line("second".to_string());
    assert_eq!(sink.len(), 2);
    assert_eq!(sink.line_at(0).as_str(), "first");
    assert_eq!(sink.line_at(1).as_str(), "second");
}

#[test]
fn outcome_lines_have_the_fixed_shape() {
    let ok = RoofStepResult {
        step: RoofStep::IstekAt,
        result: Ok(()),
    };
    assert_eq!(outcome_line("key-1", &ok), "key-1 | IstekAt | ok");
    let err = RoofStepResult {
        step: RoofStep::KeyFiltrele,
        result: Err("empty sheet".to_string()),
    };
    assert_eq!(
        outcome_line("key-2", &err),
        "key-2 | KeyFiltrele | err: empty sheet"
    );
}

#[test]
fn step_names_are_stable() {
    assert_eq!(step_name(RoofStep::KeyFiltrele), "KeyFiltrele");
    assert_eq!(step_name(RoofStep::MenuGetir), "MenuGetir");
    assert_eq!(step_name(RoofStep::Flagger), "Flagger");
    assert_eq!(step_name(RoofStep::IstekAt), "IstekAt");
}

#[test]
fn http_statuses_classify_per_retry_policy() {
    assert_eq!(classify_http_status(200), ResponseClass::Success);
    assert_eq!(classify_http_status(204), ResponseClass::Success);
    assert_eq!(classify_http_status(299), ResponseClass::Success);
    assert_eq!(classify_http_status(301), ResponseClass::NonRetryable);
    assert_eq!(classify_http_status(400), ResponseClass::NonRetryable);
    assert_eq!(classify_http_status(404), ResponseClass::NonRetryable);
    assert_eq!(classify_http_status(429), ResponseClass::Retryable);
    assert_eq!(classify_http_status(500), ResponseClass::Retryable);
    assert_eq!(classify_http_status(503), ResponseClass::Retryable);
    assert_eq!(classify_http_status(599), ResponseClass::Retryable);
    assert_eq!(classify_http_status(600), ResponseClass::NonRetryable);
}

#[test]
fn retry_policy_retries_only_fetch_and_apply() {
    let policy = RetryPolicy {
        max_retries: 2,
        delay_ms: 100,
    };
    assert!(policy.may_retry(RoofStep::MenuGetir, ResponseClass::Retryable, 0));
    assert!(policy.may_retry(RoofStep::IstekAt, ResponseClass::Retryable, 1));
    assert!(!policy.may_retry(RoofStep::IstekAt, ResponseClass::Retryable, 2));
    assert!(!policy.may_retry(RoofStep::KeyFiltrele, ResponseClass::Retryable, 0));
    assert!(!policy.may_retry(RoofStep::Flagger, ResponseClass::Retryable, 0));
    assert!(!policy.may_retry(RoofStep::MenuGetir, ResponseClass::NonRetryable, 0));
    assert!(!policy.may_retry(RoofStep::MenuGetir, ResponseClass::Success, 0));
}

#[test]
fn acknowledgments_surface_platform_rejections() {
    let ok = MigrosActivateResponse {
        success: true,
        error_message: None,
        validaton_error_messages: None,
    };
    assert!(ok.into_result().is_ok());

    let rejected = MigrosActivateResponse {
        success: false,
        error_message: Some(MigrosErrorMessage {
            error_code: "E42".to_string(),
            error_title: "Not allowed".to_string(),
            error_detail: "store closed".to_string(),
            is_system_error: false,
        }),
        validaton_error_messages: None,
    };
    match rejected.into_result() {
        Err(ApplyError::Rejected(m)) => {
            assert_eq!(m.error_code, "E42");
            assert_eq!(m.error_title, "Not allowed");
            assert_eq!(m.error_detail, "store closed");
            assert!(!m.is_system_error);
        }
        other => panic!("expected rejection, got {:?}", other),
    }

    let silent = MigrosActivateResponse {
        success: false,
        error_message: None,
        validaton_error_messages: Some(vec!["field missing".to_string()]),
    };
    assert!(matches!(
        silent.into_result(),
        Err(ApplyError::RejectedWithoutMessage)
    ));
}
