//! The errors the library surfaces. Every failure is fatal to the current
//! operation: nothing here retries or recovers, resilience being the
//! caller's policy.

use vstd::prelude::*;

verus! {

/// Why an operation failed.
#[derive(Debug, Clone, Copy, PartialEq, Eq, Structural)]
pub enum Error {
    /// The wallet could not produce a public key for the account name.
    WalletAccess,
    /// The wallet's stored key is not of the supported signature scheme.
    InvalidPublicKey,
    /// A state query returned more words than the schema allows.
    UnexpectedStateWords,
}

impl Error {
    /// A short description of the failure.
    pub fn message(&self) -> (m: &'static str)
    {
        match self {
            Error::WalletAccess => "could not fetch the account's public key",
            Error::InvalidPublicKey => "invalid public key",
            Error::UnexpectedStateWords => "expected at most one word of state",
        }
    }
}

} // verus!
