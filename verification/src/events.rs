use vstd::prelude::*;
use crate::keys::Pubkey;

verus! {

/// Emitted by a successful `create_proposal`: the new proposal's identity,
/// its creator, and its voting window.
#[derive(PartialEq, Eq, Structural, Clone, Copy, Debug)]
pub struct ProposalCreated {
    pub proposal: u64,
    pub creator: Pubkey,
    pub start_ts: i64,
    pub end_ts: i64,
}

/// Emitted by a successful `vote`: which voter chose what on which proposal.
#[derive(PartialEq, Eq, Structural, Clone, Copy, Debug)]
pub struct VoteCast {
    pub proposal: u64,
    pub voter: Pubkey,
    pub choice: bool,
}

/// Emitted by a successful `close_proposal`: the final tally and the deadline
/// that had to pass before closing.
#[derive(PartialEq, Eq, Structural, Clone, Copy, Debug)]
pub struct ProposalClosed {
    pub proposal: u64,
    pub votes_yes: u64,
    pub votes_no: u64,
    pub end_ts: i64,
}

} // verus!
