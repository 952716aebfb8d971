//! The error taxonomy of the agent operations. Every failure is surfaced as
//! a typed error to the caller and leaves the registry unchanged.

use vstd::prelude::*;

verus! {

/// Why an agent operation failed.
#[derive(Clone, Copy, Debug, PartialEq, Eq, Structural)]
pub enum AgentError {
    /// `add_identity` was called with a key type other than the one
    /// supported algorithm identifier.
    UnsupportedKeyType,
    /// The registration blob could not be decoded.
    MalformedBlob,
    /// `sign_request` was called with a public key blob absent from the
    /// registry.
    UnknownKey,
    /// The remote signing service failed or could not be reached.
    RemoteSigningFailure,
    /// The remote signing service answered with bytes that are not a valid
    /// DER-encoded ECDSA signature.
    MalformedSignature,
}

impl AgentError {
    /// A short name of the error, for callers that log or display it.
    pub fn name(&self) -> (r: &'static str)
        ensures
            r@ == match *self {
                AgentError::UnsupportedKeyType => "unsupported key type"@,
                AgentError::MalformedBlob => "malformed blob"@,
                AgentError::UnknownKey => "unknown key"@,
                AgentError::RemoteSigningFailure => "remote signing failure"@,
                AgentError::MalformedSignature => "malformed signature"@,
            },
    {
        match *self {
            AgentError::UnsupportedKeyType => "unsupported key type",
            AgentError::MalformedBlob => "malformed blob",
            AgentError::UnknownKey => "unknown key",
            AgentError::RemoteSigningFailure => "remote signing failure",
            AgentError::MalformedSignature => "malformed signature",
        }
    }
}

} // verus!
