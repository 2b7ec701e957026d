//! What can go wrong when talking to the service, kept apart by kind so that
//! callers can tell the kinds from each other without reading messages.

use vstd::prelude::*;

verus! {

/// One problem that the service named in a rejection.
#[derive(Clone, Debug)]
pub struct ErrorEntry {
    /// where in the request the problem was found (body, querystring, ...)
    pub location: String,
    /// the name of the offending field
    pub name: String,
    /// what the service said about it
    pub description: String,
}

/// A rejection that the service explained: the structured error payload.
#[derive(Clone, Debug)]
pub struct BodhiError {
    /// every problem that the service reported
    pub errors: Vec<ErrorEntry>,
    /// the status word of the payload
    pub status: String,
}

/// A business rule that a request broke before anything was sent.
#[derive(Clone, Copy, Debug, PartialEq, Eq, Structural)]
pub enum ValidationError {
    /// the stable karma threshold was zero or negative
    StableKarmaNotPositive,
    /// the unstable karma threshold was zero or positive
    UnstableKarmaNotNegative,
    /// a security update came without a specified severity
    SecuritySeverityMissing,
}

/// Why one attempt at a request gave no usable answer. Such an attempt may be
/// made again.
#[derive(Clone, Debug)]
pub enum Failure {
    /// the request did not get through: no connection, or a timeout
    Transport(String),
    /// the body of the response matched no schema that was expected
    Malformed(String),
}

/// The error of a query or of a create operation.
#[derive(Clone, Debug)]
pub enum QueryError {
    /// a local rule was broken; no request was made
    InvalidDataError { error: ValidationError },
    /// the service rejected the request and said why; never retried
    BodhiError { error: BodhiError },
    /// the body of a request could not be written
    SerializationError { error: String },
    /// no attempt that was allowed brought an answer; the reasons, in order
    Unanswered { failures: Vec<Failure> },
    /// the service still reported further pages after the paginator's ceiling
    PageLimitExceeded { fetched: u32 },
}

/// The sentence that describes a broken rule.
pub open spec fn validation_message(e: ValidationError) -> Seq<char> {
    match e {
        ValidationError::StableKarmaNotPositive => "Stable karma must be positive."@,
        ValidationError::UnstableKarmaNotNegative => "Unstable karma must be negative."@,
        ValidationError::SecuritySeverityMissing => "For security updates, severity has to be specified."@,
    }
}

impl ValidationError {
    /// A sentence that describes the broken rule.
    pub fn message(&self) -> (r: &'static str)
        ensures
            r@ == validation_message(*self),
    {
        match self {
            ValidationError::StableKarmaNotPositive => "Stable karma must be positive.",
            ValidationError::UnstableKarmaNotNegative => "Unstable karma must be negative.",
            ValidationError::SecuritySeverityMissing => "For security updates, severity has to be specified.",
        }
    }
}

} // verus!
