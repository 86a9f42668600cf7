//! Why a call of the raffle failed.

use vstd::prelude::*;
use crate::text::owned;

verus! {

#[derive(Clone, Copy, Debug, PartialEq, Eq, Structural)]
pub enum ContractError {
    /// The raffle was set up before.
    AlreadyInitialized {},
    /// A collaborator that the call needs has no address.
    NotInitialized {},
    /// No rate tier belongs to the run.
    BadRunConfiguration {},
    /// A collaborator did not answer, or answered what cannot be worked with.
    UpstreamQueryFailure {},
    /// The state could not be read or written.
    StorageFailure {},
    /// The caller may not do this.
    Unauthorized {},
}

impl ContractError {
    /// The error in words.
    pub fn message(&self) -> (text: String)
        ensures
            text@ == match *self {
                ContractError::AlreadyInitialized {  } => "AlreadyInitialized"@,
                ContractError::NotInitialized {  } => "NotInitialized"@,
                ContractError::BadRunConfiguration {  } => "BadRunConfiguration"@,
                ContractError::UpstreamQueryFailure {  } => "UpstreamQueryFailure"@,
                ContractError::StorageFailure {  } => "StorageFailure"@,
                ContractError::Unauthorized {  } => "Unauthorized"@,
            },
    {
        match self {
            ContractError::AlreadyInitialized {  } => owned("AlreadyInitialized"),
            ContractError::NotInitialized {  } => owned("NotInitialized"),
            ContractError::BadRunConfiguration {  } => owned("BadRunConfiguration"),
            ContractError::UpstreamQueryFailure {  } => owned("UpstreamQueryFailure"),
            ContractError::StorageFailure {  } => owned("StorageFailure"),
            ContractError::Unauthorized {  } => owned("Unauthorized"),
        }
    }
}

} // verus!
