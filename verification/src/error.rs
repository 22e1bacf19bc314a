//! Failures that an operation reports.

use vstd::prelude::*;

verus! {

/// Why an operation was rejected. Every failure aborts the whole operation.
#[derive(Clone, Copy, Debug, PartialEq, Eq, Structural)]
pub enum ErrorCode {
    /// The signer is not the owner recorded in the registry.
    PermissionDenied,
    /// The registry's address already holds a record.
    AlreadyInitialized,
    /// One of the sub-invocations of the token-metadata program failed.
    ExternalProtocolFailure,
    /// No nonce yields a program-derived address for the given seeds.
    AddressDerivationFailed,
}

impl ErrorCode {
    /// The text that goes with each failure.
    pub open spec fn spec_message(self) -> Seq<char> {
        match self {
            ErrorCode::PermissionDenied => "Invalid permission"@,
            ErrorCode::AlreadyInitialized => "Registry already initialized"@,
            ErrorCode::ExternalProtocolFailure => "Mint failed"@,
            ErrorCode::AddressDerivationFailed => "Unable to find a viable program address bump seed"@,
        }
    }

    /// Returns the text that goes with this failure.
    pub fn message(&self) -> (text: String)
        ensures
            text@ == self.spec_message(),
    {
        match self {
            ErrorCode::PermissionDenied => "Invalid permission".to_string(),
            ErrorCode::AlreadyInitialized => "Registry already initialized".to_string(),
            ErrorCode::ExternalProtocolFailure => "Mint failed".to_string(),
            ErrorCode::AddressDerivationFailed => {
                "Unable to find a viable program address bump seed".to_string()
            },
        }
    }
}

} // verus!
