//! The error taxonomy of the inference endpoint and its mapping to an
//! externally visible status classification.

use vstd::prelude::*;

verus! {

/// Status classification for failures the caller must correct.
pub const STATUS_BAD_REQUEST: u16 = 400;

/// Status classification for failures on the serving side.
pub const STATUS_INTERNAL_SERVER_ERROR: u16 = 500;

/// The abstract value of a [`ModelError`]: its kind and its message.
pub enum ErrorModel {
    /// The caller's request violates a precondition the endpoint enforces.
    Input(Seq<char>),
    /// The runtime produced an output the endpoint could not interpret.
    Prediction(Seq<char>),
    /// A failure reported by the model runtime itself, carried opaquely.
    Runtime(Seq<char>),
}

/// A failure on the inference request path, carrying a human-readable
/// message. Every failure is terminal for the request that produced it:
/// nothing here is retried.
#[derive(Debug, PartialEq, Eq)]
pub enum ModelError {
    /// The runtime's output could not be interpreted as predictions.
    PredictionError(String),
    /// The request was rejected before the runtime was consulted.
    InputError(String),
    /// The model runtime reported a failure; its native message is kept.
    RuntimeError(String),
}

impl View for ModelError {
    type V = ErrorModel;

    open spec fn view(&self) -> ErrorModel {
        match self {
            ModelError::PredictionError(m) => ErrorModel::Prediction(m@),
            ModelError::InputError(m) => ErrorModel::Input(m@),
            ModelError::RuntimeError(m) => ErrorModel::Runtime(m@),
        }
    }
}

/// The one place where an error kind is mapped to an external status:
/// an input error is the caller's fault, every other kind is the
/// serving side's.
pub open spec fn spec_status(e: ErrorModel) -> u16 {
    match e {
        ErrorModel::Input(_) => STATUS_BAD_REQUEST,
        ErrorModel::Prediction(_) => STATUS_INTERNAL_SERVER_ERROR,
        ErrorModel::Runtime(_) => STATUS_INTERNAL_SERVER_ERROR,
    }
}

/// The message an error carries, whatever its kind.
pub open spec fn spec_message(e: ErrorModel) -> Seq<char> {
    match e {
        ErrorModel::Input(m) => m,
        ErrorModel::Prediction(m) => m,
        ErrorModel::Runtime(m) => m,
    }
}

impl ModelError {
    /// The status classification of this error.
    pub fn status_code(&self) -> (s: u16)
        ensures
            s == spec_status(self@),
    {
        match self {
            ModelError::PredictionError(_) => STATUS_INTERNAL_SERVER_ERROR,
            ModelError::InputError(_) => STATUS_BAD_REQUEST,
            ModelError::RuntimeError(_) => STATUS_INTERNAL_SERVER_ERROR,
        }
    }

    /// The status and message of the failure response for this error.
    pub fn into_parts(self) -> (r: (u16, String))
        ensures
            r.0 == spec_status(self@),
            r.1@ == spec_message(self@),
    {
        match self {
            ModelError::PredictionError(m) => (STATUS_INTERNAL_SERVER_ERROR, m),
            ModelError::InputError(m) => (STATUS_BAD_REQUEST, m),
            ModelError::RuntimeError(m) => (STATUS_INTERNAL_SERVER_ERROR, m),
        }
    }
}

} // verus!
