use vstd::prelude::*;
use crate::errors::VotingError;
use crate::events::{ProposalClosed, ProposalCreated, VoteCast};
use crate::keys::Pubkey;
use crate::state::{Proposal, Vote, MAX_DESCRIPTION_LEN};
use vstd::string::StrSliceExecFns;

verus! {

/// Whether `v` is the vote record of `voter` on proposal `pid`.
pub open spec fn is_vote_for(v: Vote, pid: u64, voter: Pubkey) -> bool {
    v.proposal == pid && v.voter == voter
}

/// Whether some vote record of `voter` on proposal `pid` exists in `votes`.
pub open spec fn has_vote(votes: Seq<Vote>, pid: u64, voter: Pubkey) -> bool {
    exists|i: int| 0 <= i < votes.len() && #[trigger] is_vote_for(votes[i], pid, voter)
}

/// How many records in `votes` are yes-votes on proposal `pid`.
pub open spec fn votes_yes_for(votes: Seq<Vote>, pid: u64) -> nat
    decreases votes.len(),
{
    if votes.len() == 0 {
        0
    } else {
        votes_yes_for(votes.drop_last(), pid) + if votes.last().proposal == pid
            && votes.last().choice {
            1nat
        } else {
            0nat
        }
    }
}

/// How many records in `votes` are no-votes on proposal `pid`.
pub open spec fn votes_no_for(votes: Seq<Vote>, pid: u64) -> nat
    decreases votes.len(),
{
    if votes.len() == 0 {
        0
    } else {
        votes_no_for(votes.drop_last(), pid) + if votes.last().proposal == pid
            && !votes.last().choice {
            1nat
        } else {
            0nat
        }
    }
}

/// A proposal cannot hold more votes than there are vote records.
pub proof fn lemma_tally_bounded(votes: Seq<Vote>, pid: u64)
    ensures
        votes_yes_for(votes, pid) + votes_no_for(votes, pid) <= votes.len(),
    decreases votes.len(),
{
    if votes.len() > 0 {
        lemma_tally_bounded(votes.drop_last(), pid);
    }
}

/// Appending one vote record raises exactly the one counter it speaks to.
pub proof fn lemma_tally_push(votes: Seq<Vote>, v: Vote, pid: u64)
    ensures
        votes_yes_for(votes.push(v), pid) == votes_yes_for(votes, pid) + if v.proposal == pid
            && v.choice {
            1nat
        } else {
            0nat
        },
        votes_no_for(votes.push(v), pid) == votes_no_for(votes, pid) + if v.proposal == pid
            && !v.choice {
            1nat
        } else {
            0nat
        },
{
    assert(votes.push(v).drop_last() =~= votes);
    assert(votes.push(v).last() == v);
}

/// A proposal no record refers to has an empty tally.
pub proof fn lemma_tally_absent(votes: Seq<Vote>, pid: u64)
    requires
        forall|k: int| 0 <= k < votes.len() ==> (#[trigger] votes[k]).proposal != pid,
    ensures
        votes_yes_for(votes, pid) == 0,
        votes_no_for(votes, pid) == 0,
    decreases votes.len(),
{
    if votes.len() > 0 {
        assert forall|k: int| 0 <= k < votes.drop_last().len() implies (#[trigger] votes.drop_last()[k]).proposal
            != pid by {
            assert(votes.drop_last()[k] == votes[k]);
        }
        lemma_tally_absent(votes.drop_last(), pid);
    }
}

/// Inputs of `create_proposal` besides the call's own arguments: the
/// authenticated identity opening the ballot.
#[derive(PartialEq, Eq, Structural, Clone, Copy, Debug)]
pub struct CreateProposal {
    pub creator: Pubkey,
}

/// Inputs of `vote` besides the call's own arguments: the proposal voted on
/// and the authenticated identity voting.
#[derive(PartialEq, Eq, Structural, Clone, Copy, Debug)]
pub struct VoteProposal {
    pub proposal: u64,
    pub voter: Pubkey,
}

/// Inputs of `close_proposal`: the proposal to close and the authenticated
/// identity asking to close it.
#[derive(PartialEq, Eq, Structural, Clone, Copy, Debug)]
pub struct CloseProposal {
    pub proposal: u64,
    pub creator: Pubkey,
}

/// The proposal record `create_proposal` stores for these inputs.
pub open spec fn fresh_proposal(
    creator: Pubkey,
    description: String,
    now: i64,
    duration_sec: i64,
) -> Proposal {
    Proposal {
        creator,
        description,
        votes_yes: 0,
        votes_no: 0,
        is_active: true,
        start_ts: now,
        end_ts: (now + duration_sec) as i64,
    }
}

/// The proposal record `p` after one more vote of the given `choice`.
pub open spec fn tallied(p: Proposal, choice: bool) -> Proposal {
    Proposal {
        votes_yes: if choice {
            (p.votes_yes + 1) as u64
        } else {
            p.votes_yes
        },
        votes_no: if choice {
            p.votes_no
        } else {
            (p.votes_no + 1) as u64
        },
        ..p
    }
}

/// The proposal record `p` once it has been closed.
pub open spec fn deactivated(p: Proposal) -> Proposal {
    Proposal { is_active: false, ..p }
}

/// The whole voting system: the proposal records and the vote records of the
/// durable store. A proposal's identity is its index in `proposals`; a vote's
/// storage key is its (proposal, voter) pair, and the store admits at most
/// one record per key.
pub struct VotingSystem {
    pub proposals: Vec<Proposal>,
    pub votes: Vec<Vote>,
}

impl VotingSystem {
    /// Whether `pid` refers to an existing proposal record.
    pub open spec fn valid_pid(&self, pid: u64) -> bool {
        (pid as int) < self.proposals@.len()
    }

    /// The proposal record `pid` refers to.
    pub open spec fn proposal_at(&self, pid: u64) -> Proposal {
        self.proposals@[pid as int]
    }

    /// The invariant every handler preserves: all proposals are well formed,
    /// each tally counts exactly the vote records that reference it, every
    /// vote references an existing proposal, and no two vote records share a
    /// (proposal, voter) pair.
    pub open spec fn inv(&self) -> bool {
        &&& forall|i: int|
            0 <= i < self.proposals@.len() ==> (#[trigger] self.proposals@[i]).wf()
        &&& forall|i: int|
            0 <= i < self.proposals@.len() ==> (#[trigger] self.proposals@[i]).votes_yes
                == votes_yes_for(self.votes@, i as u64) && self.proposals@[i].votes_no
                == votes_no_for(self.votes@, i as u64)
        &&& forall|k: int|
            0 <= k < self.votes@.len() ==> ((#[trigger] self.votes@[k]).proposal as int)
                < self.proposals@.len()
        &&& forall|j: int, k: int|
            #![trigger self.votes@[j], self.votes@[k]]
            0 <= j < k < self.votes@.len() ==> !(self.votes@[j].proposal
                == self.votes@[k].proposal && self.votes@[j].voter == self.votes@[k].voter)
    }

    /// An empty system: no proposals, no votes.
    pub fn new() -> (r: VotingSystem)
        ensures
            r.inv(),
            r.proposals@.len() == 0,
            r.votes@.len() == 0,
    {
        VotingSystem { proposals: Vec::new(), votes: Vec::new() }
    }

    /// Open a new time-bounded binary proposal.
    ///
    /// `now` is the trusted clock reading for this transaction, supplied by
    /// the host. A description of more than `MAX_DESCRIPTION_LEN` characters
    /// is rejected first; a duration that is not strictly positive second;
    /// otherwise a fresh active proposal with an empty tally and the window
    /// `[now, now + duration_sec)` is stored under the next identity, and the
    /// creation event is returned. On any rejection the system is unchanged.
    ///
    /// The deadline must fit the timestamp type: a machine limit, not a rule
    /// of the voting logic.
    pub fn create_proposal(
        &mut self,
        ctx: CreateProposal,
        description: String,
        duration_sec: i64,
        now: i64,
    ) -> (r: Result<ProposalCreated, VotingError>)
        requires
            old(self).inv(),
            duration_sec > 0 ==> now + duration_sec <= i64::MAX,
        ensures
            final(self).inv(),
            description@.len() > MAX_DESCRIPTION_LEN ==> r == Err::<
                ProposalCreated,
                VotingError,
            >(VotingError::DescriptionTooLong) && *final(self) == *old(self),
            description@.len() <= MAX_DESCRIPTION_LEN && duration_sec <= 0 ==> r == Err::<
                ProposalCreated,
                VotingError,
            >(VotingError::InvalidDuration) && *final(self) == *old(self),
            description@.len() <= MAX_DESCRIPTION_LEN && duration_sec > 0 ==> {
                &&& r == Ok::<ProposalCreated, VotingError>(
                    (ProposalCreated {
                        proposal: old(self).proposals@.len() as u64,
                        creator: ctx.creator,
                        start_ts: now,
                        end_ts: (now + duration_sec) as i64,
                    }),
                )
                &&& final(self).proposals@ == old(self).proposals@.push(
                    fresh_proposal(ctx.creator, description, now, duration_sec),
                )
                &&& final(self).votes@ == old(self).votes@
            },
    {
        if description.as_str().unicode_len() > MAX_DESCRIPTION_LEN {
            return Err(VotingError::DescriptionTooLong);
        }
        if duration_sec <= 0 {
            return Err(VotingError::InvalidDuration);
        }
        let pid = self.proposals.len() as u64;
        let end_ts = now + duration_sec;
        let p = Proposal {
            creator: ctx.creator,
            description,
            votes_yes: 0,
            votes_no: 0,
            is_active: true,
            start_ts: now,
            end_ts,
        };
        self.proposals.push(p);
        proof {
            assert forall|k: int| 0 <= k < self.votes@.len() implies (#[trigger] self.votes@[k]).proposal
                != pid by {}
            lemma_tally_absent(self.votes@, pid);
        }
        Ok(ProposalCreated { proposal: pid, creator: ctx.creator, start_ts: now, end_ts })
    }

    /// Whether the store already holds a vote record keyed (pid, voter).
    fn has_vote_record(&self, pid: u64, voter: Pubkey) -> (r: bool)
        ensures
            r == has_vote(self.votes@, pid, voter),
    {
        let mut k: usize = 0;
        while k < self.votes.len()
            invariant
                k <= self.votes@.len(),
                forall|m: int|
                    0 <= m < k ==> !(#[trigger] is_vote_for(self.votes@[m], pid, voter)),
            decreases self.votes@.len() - k,
        {
            let v = &self.votes[k];
            if v.proposal == pid && v.voter == voter {
                assert(is_vote_for(self.votes@[k as int], pid, voter));
                return true;
            }
            k += 1;
        }
        false
    }

    /// Cast `ctx.voter`'s vote on proposal `ctx.proposal`.
    ///
    /// `now` is the trusted clock reading for this transaction. A missing or
    /// deactivated proposal is rejected first; a reading at or past the
    /// deadline second, even while the proposal is still active; a pair that
    /// already voted third, by the store refusing a second record at the same
    /// (proposal, voter) key. Otherwise the vote record and the matching
    /// tally increment are committed together and the cast event is returned.
    /// On any rejection the system is unchanged.
    ///
    /// The store must have room for one more record under the tally's
    /// counter type: a machine limit, not a rule of the voting logic.
    pub fn vote(&mut self, ctx: VoteProposal, choice: bool, now: i64) -> (r: Result<
        VoteCast,
        VotingError,
    >)
        requires
            old(self).inv(),
            old(self).votes@.len() < u64::MAX,
        ensures
            final(self).inv(),
            !old(self).valid_pid(ctx.proposal) || !old(self).proposal_at(ctx.proposal).is_active
                ==> r == Err::<VoteCast, VotingError>(VotingError::ProposalClosed) && *final(self)
                == *old(self),
            old(self).valid_pid(ctx.proposal) && old(self).proposal_at(ctx.proposal).is_active
                && now >= old(self).proposal_at(ctx.proposal).end_ts ==> r == Err::<
                VoteCast,
                VotingError,
            >(VotingError::DeadlinePassed) && *final(self) == *old(self),
            old(self).valid_pid(ctx.proposal) && old(self).proposal_at(ctx.proposal).is_active
                && now < old(self).proposal_at(ctx.proposal).end_ts && has_vote(
                old(self).votes@,
                ctx.proposal,
                ctx.voter,
            ) ==> r == Err::<VoteCast, VotingError>(VotingError::DuplicateVote) && *final(self)
                == *old(self),
            old(self).valid_pid(ctx.proposal) && old(self).proposal_at(ctx.proposal).is_active
                && now < old(self).proposal_at(ctx.proposal).end_ts && !has_vote(
                old(self).votes@,
                ctx.proposal,
                ctx.voter,
            ) ==> {
                &&& r == Ok::<VoteCast, VotingError>(
                    (VoteCast { proposal: ctx.proposal, voter: ctx.voter, choice }),
                )
                &&& final(self).votes@ == old(self).votes@.push(
                    (Vote { proposal: ctx.proposal, voter: ctx.voter, choice }),
                )
                &&& has_vote(final(self).votes@, ctx.proposal, ctx.voter)
                &&& final(self).proposals@ == old(self).proposals@.update(
                    ctx.proposal as int,
                    tallied(old(self).proposal_at(ctx.proposal), choice),
                )
            },
    {
        let pid = ctx.proposal;
        if pid >= self.proposals.len() as u64 {
            return Err(VotingError::ProposalClosed);
        }
        let i = pid as usize;
        if !self.proposals[i].is_active {
            return Err(VotingError::ProposalClosed);
        }
        if now >= self.proposals[i].end_ts {
            return Err(VotingError::DeadlinePassed);
        }
        if self.has_vote_record(pid, ctx.voter) {
            return Err(VotingError::DuplicateVote);
        }
        proof {
            lemma_tally_bounded(self.votes@, pid);
        }
        let prev = &self.proposals[i];
        let updated = Proposal {
            creator: prev.creator,
            description: prev.description.clone(),
            votes_yes: if choice {
                prev.votes_yes + 1
            } else {
                prev.votes_yes
            },
            votes_no: if choice {
                prev.votes_no
            } else {
                prev.votes_no + 1
            },
            is_active: prev.is_active,
            start_ts: prev.start_ts,
            end_ts: prev.end_ts,
        };
        let rec = Vote { proposal: pid, voter: ctx.voter, choice };
        // One atomic commit: the keyed record and its tally increment together.
        self.proposals[i] = updated;
        self.votes.push(rec);
        proof {
            let ov = old(self).votes@;
            let nv = self.votes@;
            assert forall|j: int| 0 <= j < self.proposals@.len() implies (
            #[trigger] self.proposals@[j]).votes_yes == votes_yes_for(nv, j as u64)
                && self.proposals@[j].votes_no == votes_no_for(nv, j as u64) by {
                lemma_tally_push(ov, rec, j as u64);
            }
            assert forall|j: int, k: int|
                #![trigger nv[j], nv[k]]
                0 <= j < k < nv.len() implies !(nv[j].proposal == nv[k].proposal && nv[j].voter
                == nv[k].voter) by {
                if k < ov.len() {
                    assert(nv[j] == ov[j] && nv[k] == ov[k]);
                } else {
                    assert(nv[k] == rec && nv[j] == ov[j]);
                    if ov[j].proposal == pid && ov[j].voter == ctx.voter {
                        assert(is_vote_for(ov[j], pid, ctx.voter));
                        assert(has_vote(ov, pid, ctx.voter));
                    }
                }
            }
            assert(self.proposals@ =~= old(self).proposals@.update(
                pid as int,
                tallied(old(self).proposal_at(pid), choice),
            ));
            assert(is_vote_for(nv[nv.len() - 1], pid, ctx.voter));
        }
        Ok(VoteCast { proposal: pid, voter: ctx.voter, choice })
    }

    /// Deactivate proposal `ctx.proposal`, finalizing its tally.
    ///
    /// `now` is the trusted clock reading for this transaction. Only the
    /// proposal's creator may close it, and only once the deadline has been
    /// reached. A second close by the creator after the deadline is an
    /// idempotent repeat — it leaves the proposal closed and returns the
    /// same event again — mirroring the checks, which do not read
    /// `is_active`. On any rejection the system is unchanged.
    ///
    /// The reference must name an existing proposal record: the store
    /// resolves it before the handler runs, and a dangling reference never
    /// reaches the handler.
    pub fn close_proposal(&mut self, ctx: CloseProposal, now: i64) -> (r: Result<
        ProposalClosed,
        VotingError,
    >)
        requires
            old(self).inv(),
            old(self).valid_pid(ctx.proposal),
        ensures
            final(self).inv(),
            ctx.creator != old(self).proposal_at(ctx.proposal).creator ==> r == Err::<
                ProposalClosed,
                VotingError,
            >(VotingError::Unauthorized) && *final(self) == *old(self),
            ctx.creator == old(self).proposal_at(ctx.proposal).creator && now < old(
                self,
            ).proposal_at(ctx.proposal).end_ts ==> r == Err::<ProposalClosed, VotingError>(
                VotingError::TooEarlyToClose,
            ) && *final(self) == *old(self),
            ctx.creator == old(self).proposal_at(ctx.proposal).creator && now >= old(
                self,
            ).proposal_at(ctx.proposal).end_ts ==> {
                &&& r == Ok::<ProposalClosed, VotingError>(
                    (ProposalClosed {
                        proposal: ctx.proposal,
                        votes_yes: old(self).proposal_at(ctx.proposal).votes_yes,
                        votes_no: old(self).proposal_at(ctx.proposal).votes_no,
                        end_ts: old(self).proposal_at(ctx.proposal).end_ts,
                    }),
                )
                &&& final(self).proposals@ == old(self).proposals@.update(
                    ctx.proposal as int,
                    deactivated(old(self).proposal_at(ctx.proposal)),
                )
                &&& final(self).votes@ == old(self).votes@
            },
    {
        let pid = ctx.proposal;
        let n = self.proposals.len();
        assert(pid < n as u64);
        let i = pid as usize;
        if self.proposals[i].creator != ctx.creator {
            return Err(VotingError::Unauthorized);
        }
        if now < self.proposals[i].end_ts {
            return Err(VotingError::TooEarlyToClose);
        }
        let prev = &self.proposals[i];
        let ev = ProposalClosed {
            proposal: pid,
            votes_yes: prev.votes_yes,
            votes_no: prev.votes_no,
            end_ts: prev.end_ts,
        };
        let updated = Proposal {
            creator: prev.creator,
            description: prev.description.clone(),
            votes_yes: prev.votes_yes,
            votes_no: prev.votes_no,
            is_active: false,
            start_ts: prev.start_ts,
            end_ts: prev.end_ts,
        };
        self.proposals[i] = updated;
        proof {
            assert(self.proposals@ =~= old(self).proposals@.update(
                pid as int,
                deactivated(old(self).proposal_at(pid)),
            ));
        }
        Ok(ev)
    }
}

/// No two vote records ever exist for one (proposal, voter) pair: any two
/// record positions holding the same pair are the same position.
pub proof fn lemma_at_most_one_vote_per_pair(sys: VotingSystem, j: int, k: int)
    requires
        sys.inv(),
        0 <= j < sys.votes@.len(),
        0 <= k < sys.votes@.len(),
        sys.votes@[j].proposal == sys.votes@[k].proposal,
        sys.votes@[j].voter == sys.votes@[k].voter,
    ensures
        j == k,
{
}

} // verus!
