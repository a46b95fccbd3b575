use vstd::prelude::*;
use crate::keys::Pubkey;

verus! {

/// Longest admissible proposal description, counted in characters.
pub const MAX_DESCRIPTION_LEN: usize = 200;

/// One binary ballot: who opened it, what it asks, its voting window, and the
/// running tally. Created once; only the tally and the activity flag ever
/// change afterwards.
#[derive(Debug)]
pub struct Proposal {
    pub creator: Pubkey,
    pub description: String,
    pub votes_yes: u64,
    pub votes_no: u64,
    pub is_active: bool,
    pub start_ts: i64,
    pub end_ts: i64,
}

impl Proposal {
    /// Shape every stored proposal keeps: a bounded description and a
    /// non-empty voting window.
    pub open spec fn wf(&self) -> bool {
        &&& self.description@.len() <= MAX_DESCRIPTION_LEN
        &&& self.start_ts < self.end_ts
    }
}

/// One voter's immutable choice on one proposal. Its existence is the
/// deduplication guard: the store admits at most one record per
/// (proposal, voter) pair.
#[derive(PartialEq, Eq, Structural, Clone, Copy, Debug)]
pub struct Vote {
    pub proposal: u64,
    pub voter: Pubkey,
    pub choice: bool,
}

} // verus!
