use vstd::prelude::*;

verus! {

/// The kind of a failure, as the pipeline's propagation policy reads it:
/// a missing credential, a failed directory lookup, a malformed or
/// unexpected locator, a failed network retrieval, or a failed cache
/// write.
#[derive(Clone, Copy, Debug, PartialEq, Eq, Structural)]
pub enum ErrorKind {
    Configuration,
    Lookup,
    Locator,
    Fetch,
    Persist,
}

/// An error of the pipeline: its kind, and a human-readable reason
/// carrying the underlying cause.
#[derive(Debug)]
pub struct ApiError {
    kind: ErrorKind,
    reason: String,
}

/// The mathematical shape of an error.
pub ghost struct ErrorModel {
    pub kind: ErrorKind,
    pub reason: Seq<char>,
}

impl View for ApiError {
    type V = ErrorModel;

    closed spec fn view(&self) -> ErrorModel {
        ErrorModel { kind: self.kind, reason: self.reason@ }
    }
}

impl ApiError {
    pub fn new(kind: ErrorKind, reason: &str) -> (r: ApiError)
        ensures
            r@.kind == kind,
            r@.reason == reason@,
    {
        ApiError { kind, reason: reason.to_owned() }
    }

    /// The kind of this error.
    pub fn kind(&self) -> (r: ErrorKind)
        ensures
            r == self@.kind,
    {
        self.kind
    }

    /// The human-readable reason carried by this error.
    pub fn reason(&self) -> (r: &str)
        ensures
            r@ == self@.reason,
    {
        self.reason.as_str()
    }
}

} // verus!
