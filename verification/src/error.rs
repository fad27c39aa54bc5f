//! The ways in which finalization fails.

use vstd::prelude::*;

verus! {

/// Why the proposal refused an attach call.
#[derive(Debug, Clone, Copy, PartialEq, Eq, Structural)]
pub enum AttachError {
    /// The authority presented does not derive to the record it was
    /// presented for.
    AuthorityMismatch,
    /// The call was rejected or failed for another reason, reported by its
    /// code.
    Rejected(u32),
}

/// Why a record could not be created.
#[derive(Debug, Clone, Copy, PartialEq, Eq, Structural)]
pub enum StoreError {
    /// The location of the ballot's record is occupied.
    AlreadyExists,
    /// No nonce gives the ballot's record a usable location.
    Unaddressable,
}

/// Why a ballot was not finalized. Whatever the reason, the store is left as
/// it was.
#[derive(Debug, Clone, Copy, PartialEq, Eq, Structural)]
pub enum FinalizeError {
    /// The ballot's tally has not reached consensus. Try again once it has.
    ConsensusNotReached,
    /// The ballot has been finalized before. Read the existing record.
    AlreadyExists,
    /// No nonce gives the ballot's record a usable location.
    Unaddressable,
    /// The proposal rejected the call, with this code. The whole operation
    /// may be tried again.
    ExternalCallFailed(u32),
    /// The proposal found that the authority does not belong to the record.
    AuthorityMismatch,
}

impl FinalizeError {
    /// The failure that a refused creation amounts to.
    pub open spec fn of_store(e: StoreError) -> FinalizeError {
        match e {
            StoreError::AlreadyExists => FinalizeError::AlreadyExists,
            StoreError::Unaddressable => FinalizeError::Unaddressable,
        }
    }

    /// The failure that a refused attach call amounts to: the proposal's
    /// reason, unchanged.
    pub open spec fn of_attach(e: AttachError) -> FinalizeError {
        match e {
            AttachError::AuthorityMismatch => FinalizeError::AuthorityMismatch,
            AttachError::Rejected(code) => FinalizeError::ExternalCallFailed(code),
        }
    }

    /// Wraps the store's refusal.
    pub fn from_store(e: StoreError) -> (r: FinalizeError)
        ensures
            r == FinalizeError::of_store(e),
    {
        match e {
            StoreError::AlreadyExists => FinalizeError::AlreadyExists,
            StoreError::Unaddressable => FinalizeError::Unaddressable,
        }
    }

    /// Wraps the proposal's refusal.
    pub fn from_attach(e: AttachError) -> (r: FinalizeError)
        ensures
            r == FinalizeError::of_attach(e),
    {
        match e {
            AttachError::AuthorityMismatch => FinalizeError::AuthorityMismatch,
            AttachError::Rejected(code) => FinalizeError::ExternalCallFailed(code),
        }
    }

    /// Whether trying the same operation again can succeed: after a tally
    /// that was not ready, or after a rejected call; never once the record
    /// exists or the authority was refused.
    pub fn is_retryable(&self) -> (r: bool)
        ensures
            r == (*self is ConsensusNotReached || *self is ExternalCallFailed),
    {
        match self {
            FinalizeError::ConsensusNotReached => true,
            FinalizeError::ExternalCallFailed(_) => true,
            _ => false,
        }
    }
}

} // verus!
