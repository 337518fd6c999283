use vstd::prelude::*;

verus! {

/// The error taxonomy of the endpoint.
///
/// Every failure a caller can observe falls in one of these categories,
/// and each is distinguishable at the network boundary:
/// - `Validation`: malformed, missing or unknown input field; raised
///   before the request is scheduled, so the worker never sees it.
/// - `Scheduling`: the work queue is unavailable or closed; the request
///   never enters processing.
/// - `Handler`: the inference handler failed while a worker processed the
///   request; delivered as a value over the reply channel.
/// - `NoResponse`: the reply channel closed without delivering anything.
#[derive(Clone, Debug)]
pub enum OpenAiError {
    Validation(String),
    Scheduling(String),
    Handler(String),
    NoResponse,
}

pub type OpenAiResult<T> = Result<T, OpenAiError>;

} // verus!
