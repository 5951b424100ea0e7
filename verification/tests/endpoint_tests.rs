use onnx_serving::endpoint::PredictionRequest;
use onnx_serving::endpoint::RunOutcome;
use onnx_serving::endpoint::respond;
use onnx_serving::endpoint::validate;
use onnx_serving::error::ModelError;
use onnx_serving::error::STATUS_BAD_REQUEST;
use onnx_serving::error::STATUS_INTERNAL_SERVER_ERROR;

fn bits_rows(rows: &[&[f32]]) -> Vec<Vec<u32>> {
    rows.iter().map(|r| r.iter().map(|x| x.to_bits()).collect()).collect()
}

fn request(rows: &[&[f32]]) -> PredictionRequest {
    PredictionRequest { features: bits_rows(rows) }
}

#[test]
fn single_row_accepted() {
    let req = request(&[&[1.2, 0.5, 3.4, 2.0]]);
    let m = validate(&req).expect("a single row of four features is accepted");
    assert_eq!(m.n_samples, 1);
    assert_eq!(m.n_features, 4);
    assert_eq!(m.data, bits_rows(&[&[1.2, 0.5, 3.4, 2.0]])[0]);

    // One prediction word back from the runtime yields one prediction.
    let out = vec![0.75f32.to_bits()];
    let resp = respond(RunOutcome::Output(out.clone())).expect("output is wrapped");
    assert_eq!(resp.predictions, out);
    assert_eq!(resp.predictions.len(), 1);
    assert_eq!(f32::from_bits(resp.predictions[0]), 0.75);
}

#[test]
fn two_rows_accepted_in_order() {
    let req = request(&[&[1.2, 0.5, 3.4, 2.0], &[2.3, 1.1, 4.1, 1.5]]);
    let m = validate(&req).expect("two rows of four features are accepted");
    assert_eq!(m.n_samples, 2);
    assert_eq!(m.n_features, 4);
    // Row-major flattening: row 0 first, then row 1.
    let expected: Vec<u32> =
        [1.2f32, 0.5, 3.4, 2.0, 2.3, 1.1, 4.1, 1.5].iter().map(|x| x.to_bits()).collect();
    assert_eq!(m.data, expected);

    // Two prediction words come back index-aligned with the two rows.
    let out: Vec<u32> = vec![0.25f32.to_bits(), 0.5f32.to_bits()];
    let resp = respond(RunOutcome::Output(out.clone())).expect("output is wrapped");
    assert_eq!(resp.predictions.len(), 2);
    assert_eq!(f32::from_bits(resp.predictions[0]), 0.25);
    assert_eq!(f32::from_bits(resp.predictions[1]), 0.5);
}

#[test]
fn empty_batch_is_an_input_error() {
    let req = PredictionRequest { features: vec![] };
    let err = validate(&req).expect_err("an empty batch is rejected");
    assert_eq!(err, ModelError::InputError("No features provided".to_string()));
    assert_eq!(err.status_code(), STATUS_BAD_REQUEST);
}

#[test]
fn wrong_arity_is_an_input_error_naming_the_arity() {
    let req = request(&[&[1.0, 2.0]]);
    let err = validate(&req).expect_err("a row of two features is rejected");
    let (status, message) = err.into_parts();
    assert_eq!(status, STATUS_BAD_REQUEST);
    assert_eq!(message, "Each sample must have exactly 4 features");
    assert!(message.contains("4"));
}

#[test]
fn ragged_batch_fails_at_the_reshape_step() {
    // The first row has the expected arity, so the batch passes the
    // arity check and the inconsistency surfaces as a shape mismatch.
    let req = request(&[&[1.0, 2.0, 3.0, 4.0], &[5.0, 6.0, 7.0]]);
    let err = validate(&req).expect_err("a ragged batch is rejected");
    let (status, message) = err.into_parts();
    assert_eq!(status, STATUS_BAD_REQUEST);
    assert_eq!(message, "Input data length does not match the requested shape");
}

#[test]
fn runtime_failure_is_a_server_fault_with_the_native_message() {
    let err = respond(RunOutcome::RuntimeFailure("tensor shape mismatch".to_string()))
        .expect_err("a runtime failure is an error");
    assert_eq!(err, ModelError::RuntimeError("tensor shape mismatch".to_string()));
    let (status, message) = err.into_parts();
    assert_eq!(status, STATUS_INTERNAL_SERVER_ERROR);
    assert_eq!(message, "tensor shape mismatch");
}

#[test]
fn extraction_failure_is_a_prediction_error() {
    let err = respond(RunOutcome::ExtractionFailure("unexpected output type".to_string()))
        .expect_err("an uninterpretable output is an error");
    assert_eq!(err, ModelError::PredictionError("unexpected output type".to_string()));
    let (status, message) = err.into_parts();
    assert_eq!(status, STATUS_INTERNAL_SERVER_ERROR);
    assert_eq!(message, "unexpected output type");
}

#[test]
fn status_codes_classify_caller_and_server_faults() {
    assert_eq!(ModelError::InputError("m".to_string()).status_code(), 400);
    assert_eq!(ModelError::PredictionError("m".to_string()).status_code(), 500);
    assert_eq!(ModelError::RuntimeError("m".to_string()).status_code(), 500);
}

#[test]
fn handling_is_deterministic() {
    let req = request(&[&[1.2, 0.5, 3.4, 2.0], &[2.3, 1.1, 4.1, 1.5]]);
    let m1 = validate(&req).expect("accepted");
    let m2 = validate(&req).expect("accepted");
    assert_eq!(m1.n_samples, m2.n_samples);
    assert_eq!(m1.n_features, m2.n_features);
    assert_eq!(m1.data, m2.data);

    let out: Vec<u32> = vec![0.25f32.to_bits(), 0.5f32.to_bits()];
    let r1 = respond(RunOutcome::Output(out.clone())).expect("wrapped");
    let r2 = respond(RunOutcome::Output(out)).expect("wrapped");
    assert_eq!(r1.predictions, r2.predictions);
}
