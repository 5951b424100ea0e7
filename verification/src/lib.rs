//! Verified core of a single-model inference service.
//!
//! The service accepts a batch of feature vectors, validates its shape,
//! lays it out in the row-major order the model runtime expects, and
//! shapes the runtime's answer into a response or into one of three
//! error kinds. Those steps — validation, flattening, reshaping, the
//! error taxonomy, and response shaping — are the logic of this crate,
//! stated in contracts and proved.
//!
//! A feature value is carried as the 32-bit word of its wire encoding;
//! its numeric interpretation belongs to the model runtime and is never
//! examined here. The runtime itself (model loading and execution) and
//! the network layer live outside this crate: callers hand its outcome
//! in as a plain value, and the contracts here say exactly how each
//! outcome is classified and returned.

pub mod endpoint;
pub mod error;
pub mod matrix;
