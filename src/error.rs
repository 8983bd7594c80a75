use vstd::prelude::*;

verus! {

/// A failure reported by the transport, with its retryability flag.
#[derive(Debug, Clone, PartialEq, Eq)]
pub struct TransportError {
    pub retryable: bool,
    pub message: String,
}

/// Why a consistency selector could not be put in a request.
#[derive(Debug, Clone, Copy, PartialEq, Eq)]
pub enum SelectorProblem {
    /// A read time whose nanosecond part is a second or more.
    ReadTimeOutOfRange { seconds: i64, nanos: u32 },
    /// A transaction handle, where the request only takes a read time.
    TransactionNotAllowed,
}

/// The errors a listing call can produce.
#[derive(Debug, Clone, PartialEq, Eq)]
pub enum FirestoreError {
    /// A network or service failure, possibly transient.
    Transport(TransportError),
    /// The session's consistency selector has no transport form for the request.
    ConsistencySelector(SelectorProblem),
    /// One document could not be converted to the target type.
    Decode(String),
    /// A retryable failure that was still failing after `retries` retries, the most allowed.
    ExhaustedRetries { retries: usize, last: TransportError },
    /// A page size outside `1..=i32::MAX`.
    InvalidPageSize(usize),
}

pub type FirestoreResult<T> = Result<T, FirestoreError>;

impl TransportError {
    pub fn new(retryable: bool, message: String) -> (r: TransportError)
        ensures
            r.retryable == retryable,
            r.message == message,
    {
        TransportError { retryable, message }
    }
}

} // verus!
