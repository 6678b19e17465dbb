//! The errors a caller can be handed, and what each says about retrying.

use vstd::prelude::*;
use crate::envelope::MCPError;

verus! {

/// Why an operation did not complete.
#[derive(Debug, PartialEq, Eq)]
pub enum ClientError {
    /// The session could not be established.
    ConnectionError,
    /// The operation was attempted on a session that is not connected.
    NotConnected,
    /// No matching response arrived before the deadline.
    Timeout,
    /// The session was torn down while the request was pending.
    ConnectionLost,
    /// A response failed the validation of its envelope.
    MalformedResponse,
    /// An argument failed local validation; nothing was transmitted.
    InvalidParameter,
    /// The backend answered with an error, carried here as it came.
    BackendError(MCPError),
}

/// What a failure says about the request it belongs to. A request whose
/// outcome is unknown may have taken effect and must not be repeated blindly.
#[derive(Clone, Copy, Debug, PartialEq, Eq, Structural)]
pub enum RetryClass {
    /// The request never reached the backend.
    NeverReached,
    /// The backend received the request and refused it.
    BackendFailed,
    /// The request may or may not have taken effect.
    OutcomeUnknown,
}

impl ClientError {
    /// The class of this failure: a request that was refused locally or
    /// on a session that is not connected never reached the backend; an
    /// error reported by the backend is its refusal; after a timeout, a lost
    /// connection or a malformed response the outcome is unknown.
    pub open spec fn spec_retry_class(&self) -> RetryClass {
        match self {
            ClientError::ConnectionError => RetryClass::NeverReached,
            ClientError::NotConnected => RetryClass::NeverReached,
            ClientError::InvalidParameter => RetryClass::NeverReached,
            ClientError::BackendError(_) => RetryClass::BackendFailed,
            ClientError::Timeout => RetryClass::OutcomeUnknown,
            ClientError::ConnectionLost => RetryClass::OutcomeUnknown,
            ClientError::MalformedResponse => RetryClass::OutcomeUnknown,
        }
    }

    /// The class of this failure.
    #[verifier::when_used_as_spec(spec_retry_class)]
    pub fn retry_class(&self) -> (class: RetryClass)
        ensures
            class == self.spec_retry_class(),
    {
        match self {
            ClientError::ConnectionError => RetryClass::NeverReached,
            ClientError::NotConnected => RetryClass::NeverReached,
            ClientError::InvalidParameter => RetryClass::NeverReached,
            ClientError::BackendError(_) => RetryClass::BackendFailed,
            ClientError::Timeout => RetryClass::OutcomeUnknown,
            ClientError::ConnectionLost => RetryClass::OutcomeUnknown,
            ClientError::MalformedResponse => RetryClass::OutcomeUnknown,
        }
    }
}

} // verus!
