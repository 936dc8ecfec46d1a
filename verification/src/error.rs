use vstd::prelude::*;
use vstd::std_specs::convert::FromSpecImpl;
use std::time::SystemTimeError;

verus! {

/// Everything that an operation of the client can fail with.
#[derive(Debug, Clone, Copy, PartialEq, Eq, Structural)]
pub enum WatchtowerError {
    /// An invariant was violated: an empty instance list was indexed, a
    /// response body could not be decoded, or the clock failed.
    InternalError,
    /// The service is unknown to the registry, or there is no active
    /// registration to cancel.
    NotFound,
    /// The registry rejected the credentials. Never retried.
    Unauthorized,
    /// A registration is already active.
    InstanceAlreadyRegistered,
    /// Every attempt of the retry budget failed.
    MaxRetryReached,
    /// A ping was requested while nothing is registered.
    InvalidPing,
    /// An index was requested from a selector over an empty pool.
    EmptyPool,
}

/// `reqwest::Error`, with which the HTTP client says that a request or the
/// reading of a response failed. Nothing is known of what a value holds.
#[verifier::external_type_specification]
#[verifier::external_body]
pub struct ExReqwestError(reqwest::Error);

/// `serde_json::Error`, with which a value fails to be written as JSON or
/// read from it. Nothing is known of what a value holds.
#[verifier::external_type_specification]
#[verifier::external_body]
pub struct ExJsonError(serde_json::Error);

/// What the error is called where the client is bound into a host
/// language: the two kinds that a caller can act on by name, and one text
/// for the rest.
pub open spec fn message_of(error: WatchtowerError) -> Seq<char> {
    match error {
        WatchtowerError::NotFound => "NotFound"@,
        WatchtowerError::Unauthorized => "Unauthorized"@,
        _ => "Something went wrong"@,
    }
}

impl WatchtowerError {
    /// What the error is called in a host language.
    pub fn message(&self) -> (text: &'static str)
        ensures
            text@ == message_of(*self),
    {
        match self {
            WatchtowerError::NotFound => "NotFound",
            WatchtowerError::Unauthorized => "Unauthorized",
            _ => "Something went wrong",
        }
    }
}

impl From<reqwest::Error> for WatchtowerError {
    /// A response that cannot be read is an internal error.
    fn from(error: reqwest::Error) -> (converted: Self) {
        WatchtowerError::InternalError
    }
}

impl FromSpecImpl<reqwest::Error> for WatchtowerError {
    open spec fn obeys_from_spec() -> bool {
        true
    }

    open spec fn from_spec(error: reqwest::Error) -> Self {
        WatchtowerError::InternalError
    }
}

impl From<serde_json::Error> for WatchtowerError {
    /// A record that cannot be written or read as JSON is an internal
    /// error.
    fn from(error: serde_json::Error) -> (converted: Self) {
        WatchtowerError::InternalError
    }
}

impl FromSpecImpl<serde_json::Error> for WatchtowerError {
    open spec fn obeys_from_spec() -> bool {
        true
    }

    open spec fn from_spec(error: serde_json::Error) -> Self {
        WatchtowerError::InternalError
    }
}

impl From<SystemTimeError> for WatchtowerError {
    /// A clock that cannot be read is an internal error.
    fn from(error: SystemTimeError) -> (converted: Self) {
        WatchtowerError::InternalError
    }
}

impl FromSpecImpl<SystemTimeError> for WatchtowerError {
    open spec fn obeys_from_spec() -> bool {
        true
    }

    open spec fn from_spec(error: SystemTimeError) -> Self {
        WatchtowerError::InternalError
    }
}

} // verus!
