//! The inference endpoint: validation of a request's feature batch,
//! construction of the model's input matrix, and shaping of the
//! runtime's outcome into a response or an error.
//!
//! The endpoint is stateless per call: validation decides whether the
//! runtime is consulted at all, and response shaping classifies
//! whatever the runtime answered. Running the model itself is the
//! caller's business; it hands the outcome in as a [`RunOutcome`].

use vstd::prelude::*;

use crate::error::ErrorModel;
use crate::error::ModelError;
use crate::matrix::FeatureMatrix;
use crate::matrix::chop;
use crate::matrix::flatten_batch;
use crate::matrix::from_flat;
use crate::matrix::lemma_flatten_rectangular;
use crate::matrix::lemma_flatten_reshape_lossless;
use crate::matrix::msg_shape_mismatch;
use crate::matrix::rectangular;

verus! {

/// The number of features per sample the loaded model was trained with.
pub const EXPECTED_ARITY: usize = 4;

/// A batch-prediction request: one feature vector per sample, each
/// value carried as its 32-bit wire word.
#[derive(Debug)]
pub struct PredictionRequest {
    pub features: Vec<Vec<u32>>,
}

/// A successful response: one prediction word per input sample, in
/// input order.
#[derive(Debug)]
pub struct PredictionResponse {
    pub predictions: Vec<u32>,
}

/// What the model runtime handed back for a validated batch. The
/// runtime runs outside this crate; response shaping is specified for
/// every value a caller can hand in.
#[derive(Debug)]
pub enum RunOutcome {
    /// The first output tensor, flattened to 32-bit words.
    Output(Vec<u32>),
    /// The runtime itself failed, with its native message.
    RuntimeFailure(String),
    /// The first output tensor could not be read as 32-bit words.
    ExtractionFailure(String),
}

/// The abstract value of a [`RunOutcome`].
pub enum OutcomeModel {
    Output(Seq<u32>),
    RuntimeFailure(Seq<char>),
    ExtractionFailure(Seq<char>),
}

impl View for RunOutcome {
    type V = OutcomeModel;

    open spec fn view(&self) -> OutcomeModel {
        match self {
            RunOutcome::Output(v) => OutcomeModel::Output(v@),
            RunOutcome::RuntimeFailure(m) => OutcomeModel::RuntimeFailure(m@),
            RunOutcome::ExtractionFailure(m) => OutcomeModel::ExtractionFailure(m@),
        }
    }
}

/// The message rejecting an empty batch.
pub open spec fn msg_no_features() -> Seq<char> {
    "No features provided"@
}

/// The message rejecting a first row of the wrong length; it names the
/// expected arity.
pub open spec fn msg_wrong_arity() -> Seq<char> {
    "Each sample must have exactly 4 features"@
}

/// What validating a feature batch yields: an empty batch and a first
/// row of the wrong length are rejected outright; otherwise the rows
/// are flattened in order and reshaped, and a batch whose flat length
/// does not match `rows x arity` (inconsistent row lengths) surfaces as
/// a shape mismatch at the reshape step.
pub open spec fn spec_validate(rows: Seq<Seq<u32>>) -> Result<Seq<Seq<u32>>, ErrorModel> {
    if rows.len() == 0 {
        Err(ErrorModel::Input(msg_no_features()))
    } else if rows[0].len() != EXPECTED_ARITY {
        Err(ErrorModel::Input(msg_wrong_arity()))
    } else if rows.flatten().len() != rows.len() * EXPECTED_ARITY {
        Err(ErrorModel::Input(msg_shape_mismatch()))
    } else {
        Ok(chop(rows.flatten(), rows.len(), EXPECTED_ARITY as nat))
    }
}

/// How each runtime outcome is classified: predictions pass through
/// unchanged and in order; a runtime failure keeps its native message;
/// an uninterpretable output is a prediction error.
pub open spec fn spec_respond(o: OutcomeModel) -> Result<Seq<u32>, ErrorModel> {
    match o {
        OutcomeModel::Output(v) => Ok(v),
        OutcomeModel::RuntimeFailure(m) => Err(ErrorModel::Runtime(m)),
        OutcomeModel::ExtractionFailure(m) => Err(ErrorModel::Prediction(m)),
    }
}

/// One request end to end: validation decides first, and only an
/// accepted batch is answered by the runtime's outcome.
pub open spec fn spec_handle(rows: Seq<Seq<u32>>, o: OutcomeModel) -> Result<Seq<u32>, ErrorModel> {
    match spec_validate(rows) {
        Ok(_) => spec_respond(o),
        Err(e) => Err(e),
    }
}

/// Validate a request's feature batch and build the model's input
/// matrix, exactly as [`spec_validate`] says.
pub fn validate(request: &PredictionRequest) -> (r: Result<FeatureMatrix, ModelError>)
    ensures
        match r {
            Ok(m) => {
                &&& spec_validate(request.features.deep_view()) == Ok::<Seq<Seq<u32>>, ErrorModel>(
                    m@,
                )
                &&& m.wf()
                &&& m.n_samples == request.features@.len()
                &&& m.n_features == EXPECTED_ARITY
                &&& m.data@ == request.features.deep_view().flatten()
            },
            Err(e) => spec_validate(request.features.deep_view()) == Err::<
                Seq<Seq<u32>>,
                ErrorModel,
            >(e@),
        },
{
    let features = &request.features;
    let ghost dv = features.deep_view();
    if features.len() == 0 {
        return Err(ModelError::InputError(String::from_str("No features provided")));
    }
    let n_samples = features.len();
    let n_features = features[0].len();
    proof {
        assert(dv[0].len() == features@[0]@.len());
    }
    if n_features != EXPECTED_ARITY {
        return Err(
            ModelError::InputError(String::from_str("Each sample must have exactly 4 features")),
        );
    }
    let flat = flatten_batch(features);
    match from_flat(n_samples, n_features, flat) {
        Ok(m) => {
            proof {
                assert(m@ == chop(dv.flatten(), dv.len(), EXPECTED_ARITY as nat));
            }
            Ok(m)
        },
        Err(msg) => Err(ModelError::InputError(msg)),
    }
}

/// Shape the runtime's outcome into the response or the error that
/// [`spec_respond`] assigns to it.
pub fn respond(outcome: RunOutcome) -> (r: Result<PredictionResponse, ModelError>)
    ensures
        match r {
            Ok(resp) => spec_respond(outcome@) == Ok::<Seq<u32>, ErrorModel>(resp.predictions@),
            Err(e) => spec_respond(outcome@) == Err::<Seq<u32>, ErrorModel>(e@),
        },
{
    match outcome {
        RunOutcome::Output(v) => Ok(PredictionResponse { predictions: v }),
        RunOutcome::RuntimeFailure(m) => Err(ModelError::RuntimeError(m)),
        RunOutcome::ExtractionFailure(m) => Err(ModelError::PredictionError(m)),
    }
}

/// A non-empty rectangular batch of the expected arity is accepted:
/// validation never rejects it, and the runtime's output vector is
/// returned unchanged and in order, so its entries stay aligned with
/// the input rows; when the runtime answers one prediction per row, the
/// response holds exactly one prediction per input row.
pub proof fn lemma_valid_batch_accepted(rows: Seq<Seq<u32>>, out: Seq<u32>)
    requires
        rows.len() > 0,
        rectangular(rows, EXPECTED_ARITY as nat),
    ensures
        spec_validate(rows) is Ok,
        spec_handle(rows, OutcomeModel::Output(out)) == Ok::<Seq<u32>, ErrorModel>(out),
        out.len() == rows.len() ==> (spec_handle(rows, OutcomeModel::Output(out)) matches Ok(p)
            && p.len() == rows.len()),
{
    lemma_flatten_rectangular(rows, EXPECTED_ARITY as nat);
}

/// Validation is lossless on well-shaped batches: the matrix handed to
/// the runtime holds exactly the caller's rows, entry for entry.
pub proof fn lemma_validation_preserves_batch(rows: Seq<Seq<u32>>)
    requires
        rows.len() > 0,
        rectangular(rows, EXPECTED_ARITY as nat),
    ensures
        spec_validate(rows) == Ok::<Seq<Seq<u32>>, ErrorModel>(rows),
{
    lemma_flatten_rectangular(rows, EXPECTED_ARITY as nat);
    lemma_flatten_reshape_lossless(rows, EXPECTED_ARITY as nat);
}

/// An empty batch always yields the input error reporting that no
/// features were provided — never a runtime or prediction error — no
/// matter what the runtime would have answered.
pub proof fn lemma_empty_batch_rejected(rows: Seq<Seq<u32>>, o: OutcomeModel)
    requires
        rows.len() == 0,
    ensures
        spec_handle(rows, o) == Err::<Seq<u32>, ErrorModel>(ErrorModel::Input(msg_no_features())),
{
}

/// A first row of the wrong length always yields the input error naming
/// the expected arity, no matter what the runtime would have answered:
/// the result is fixed before the runtime is consulted.
pub proof fn lemma_wrong_arity_rejected(rows: Seq<Seq<u32>>, o: OutcomeModel)
    requires
        rows.len() > 0,
        rows[0].len() != EXPECTED_ARITY,
    ensures
        spec_handle(rows, o) == Err::<Seq<u32>, ErrorModel>(ErrorModel::Input(msg_wrong_arity())),
{
}

/// Handling a request is deterministic: identical feature batches and
/// identical runtime outcomes yield identical results.
pub proof fn lemma_handle_deterministic(
    rows1: Seq<Seq<u32>>,
    o1: OutcomeModel,
    rows2: Seq<Seq<u32>>,
    o2: OutcomeModel,
)
    requires
        rows1 == rows2,
        o1 == o2,
    ensures
        spec_handle(rows1, o1) == spec_handle(rows2, o2),
{
}

} // verus!
