//! A small request-handling core: two integer-division operations with a
//! rejection policy, and the total mapping from every failure to a wire
//! response (status code and message body).

mod engine;
mod laws;
mod service;

pub use engine::{nth1337, nth42, Error, Operation};
pub use laws::{
    lemma_decode_failure, lemma_failure_body_non_empty, lemma_identical_input_identical_output,
    lemma_quotient_of_decremented,
};
pub use service::{
    handle1337, handle42, respond, translate, Counter, ServiceError, WireResponse,
};
