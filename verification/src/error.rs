//! Error taxonomy for the relay.
//!
//! Failures are handled at the request boundary: a handler maps any
//! failure to one of these values and the caller turns it into an HTTP
//! status; nothing is retried and no partial result is returned.

use vstd::prelude::*;

verus! {

/// Why a single request failed.
#[derive(Clone, Copy, Debug, PartialEq, Eq, Structural)]
pub enum RelayError {
    /// The `action` query parameter was not one of the recognized values.
    /// Rejected before any outbound call is made.
    InvalidAction,
    /// The upstream API could not be reached (network failure or timeout).
    UpstreamUnreachable,
    /// The upstream API answered, but the body did not match the expected shape.
    UpstreamMalformed,
}

/// How the upstream exchange went wrong, as reported by the unverified
/// I/O layer that performed the call.
#[derive(Clone, Copy, Debug, PartialEq, Eq, Structural)]
pub enum UpstreamFailure {
    /// The request never completed: connection error or timeout.
    Unreachable,
    /// A response arrived but could not be read as the expected shape.
    Malformed,
}

impl RelayError {
    /// The HTTP status to surface for this error: a client error for a
    /// rejected request, a bad-gateway error for upstream trouble.
    pub fn status_code(&self) -> (code: u16)
        ensures
            code == self.spec_status_code(),
    {
        match self {
            RelayError::InvalidAction => 400,
            RelayError::UpstreamUnreachable => 502,
            RelayError::UpstreamMalformed => 502,
        }
    }

    pub open spec fn spec_status_code(&self) -> u16 {
        match self {
            RelayError::InvalidAction => 400u16,
            RelayError::UpstreamUnreachable => 502u16,
            RelayError::UpstreamMalformed => 502u16,
        }
    }

    /// The machine-readable name of this error, as served in error
    /// bodies.
    pub open spec fn spec_error_name(&self) -> Seq<char> {
        match self {
            RelayError::InvalidAction => "invalid_action"@,
            RelayError::UpstreamUnreachable => "upstream_unreachable"@,
            RelayError::UpstreamMalformed => "upstream_malformed"@,
        }
    }

    /// Renders the machine-readable name of this error.
    pub fn error_name(&self) -> (s: &'static str)
        ensures
            s@ == self.spec_error_name(),
    {
        match self {
            RelayError::InvalidAction => "invalid_action",
            RelayError::UpstreamUnreachable => "upstream_unreachable",
            RelayError::UpstreamMalformed => "upstream_malformed",
        }
    }

    /// True exactly when the failure is the caller's (so the request was
    /// rejected without contacting upstream).
    pub fn is_client_error(&self) -> (r: bool)
        ensures
            r == (*self == RelayError::InvalidAction),
    {
        match self {
            RelayError::InvalidAction => true,
            _ => false,
        }
    }
}

/// The error served to the caller for each kind of upstream failure.
pub open spec fn spec_error_from_upstream(f: UpstreamFailure) -> RelayError {
    match f {
        UpstreamFailure::Unreachable => RelayError::UpstreamUnreachable,
        UpstreamFailure::Malformed => RelayError::UpstreamMalformed,
    }
}

/// Translates an upstream failure report into the error served to the caller.
pub fn error_from_upstream(f: UpstreamFailure) -> (e: RelayError)
    ensures
        e == spec_error_from_upstream(f),
{
    match f {
        UpstreamFailure::Unreachable => RelayError::UpstreamUnreachable,
        UpstreamFailure::Malformed => RelayError::UpstreamMalformed,
    }
}

} // verus!
