use vstd::prelude::*;

verus! {

/// Every way a handler can reject a transaction. Each rejection is atomic:
/// no record is created or mutated when one of these is returned.
///
/// `DuplicateVote` is the storage-layer rejection of a second vote record at
/// the same (proposal, voter) location; the others are precondition checks
/// made by the handlers themselves.
#[derive(PartialEq, Eq, Structural, Clone, Copy, Debug)]
pub enum VotingError {
    /// The proposal does not exist or is no longer active.
    ProposalClosed,
    /// The caller is not the proposal's creator.
    Unauthorized,
    /// The description exceeds the length bound.
    DescriptionTooLong,
    /// The requested duration is not strictly positive.
    InvalidDuration,
    /// The voting deadline has passed.
    DeadlinePassed,
    /// The deadline has not been reached yet.
    TooEarlyToClose,
    /// A vote record for this (proposal, voter) pair already exists.
    DuplicateVote,
}

} // verus!
