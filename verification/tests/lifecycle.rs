use voting_dapp::errors::VotingError;
use voting_dapp::events::{ProposalClosed, ProposalCreated, VoteCast};
use voting_dapp::keys::Pubkey;
use voting_dapp::system::{CloseProposal, CreateProposal, VoteProposal, VotingSystem};

fn key(n: u64) -> Pubkey {
    Pubkey::new(n, 0, 0, 0)
}

fn open_proposal(sys: &mut VotingSystem, creator: Pubkey, duration: i64, now: i64) -> u64 {
    let ev = sys
        .create_proposal(CreateProposal { creator }, String::from("ship it?"), duration, now)
        .expect("proposal should open");
    ev.proposal
}

#[test]
fn create_sets_window_and_activates() {
    let mut sys = VotingSystem::new();
    let alice = key(1);
    let r = sys.create_proposal(
        CreateProposal { creator: alice },
        String::from("extend the treasury?"),
        100,
        0,
    );
    assert_eq!(
        r,
        Ok(ProposalCreated { proposal: 0, creator: alice, start_ts: 0, end_ts: 100 })
    );
    let p = &sys.proposals[0];
    assert!(p.is_active);
    assert_eq!(p.creator, alice);
    assert_eq!(p.description, String::from("extend the treasury?"));
    assert_eq!((p.votes_yes, p.votes_no), (0, 0));
    assert_eq!((p.start_ts, p.end_ts), (0, 100));
}

#[test]
fn create_window_follows_the_clock() {
    let mut sys = VotingSystem::new();
    let r = sys.create_proposal(
        CreateProposal { creator: key(9) },
        String::from("move the meeting?"),
        3600,
        1_700_000_000,
    );
    assert_eq!(
        r,
        Ok(ProposalCreated {
            proposal: 0,
            creator: key(9),
            start_ts: 1_700_000_000,
            end_ts: 1_700_003_600,
        })
    );
}

#[test]
fn create_rejects_long_description() {
    let mut sys = VotingSystem::new();
    let r = sys.create_proposal(CreateProposal { creator: key(1) }, "a".repeat(201), 100, 0);
    assert_eq!(r, Err(VotingError::DescriptionTooLong));
    assert!(sys.proposals.is_empty());
}

#[test]
fn create_accepts_description_at_the_bound() {
    let mut sys = VotingSystem::new();
    let r = sys.create_proposal(CreateProposal { creator: key(1) }, "a".repeat(200), 100, 0);
    assert!(r.is_ok());
    assert_eq!(sys.proposals.len(), 1);
}

#[test]
fn create_rejects_nonpositive_duration() {
    let mut sys = VotingSystem::new();
    let r0 = sys.create_proposal(CreateProposal { creator: key(1) }, String::from("now?"), 0, 50);
    assert_eq!(r0, Err(VotingError::InvalidDuration));
    let rn = sys.create_proposal(CreateProposal { creator: key(1) }, String::from("then?"), -7, 50);
    assert_eq!(rn, Err(VotingError::InvalidDuration));
    assert!(sys.proposals.is_empty());
}

#[test]
fn create_checks_description_before_duration() {
    let mut sys = VotingSystem::new();
    let r = sys.create_proposal(CreateProposal { creator: key(1) }, "a".repeat(300), -1, 0);
    assert_eq!(r, Err(VotingError::DescriptionTooLong));
}

#[test]
fn vote_counts_yes_and_no() {
    let mut sys = VotingSystem::new();
    let pid = open_proposal(&mut sys, key(1), 100, 0);
    let rv = sys.vote(VoteProposal { proposal: pid, voter: key(2) }, true, 10);
    assert_eq!(rv, Ok(VoteCast { proposal: pid, voter: key(2), choice: true }));
    assert_eq!((sys.proposals[0].votes_yes, sys.proposals[0].votes_no), (1, 0));
    let rv2 = sys.vote(VoteProposal { proposal: pid, voter: key(3) }, false, 20);
    assert_eq!(rv2, Ok(VoteCast { proposal: pid, voter: key(3), choice: false }));
    assert_eq!((sys.proposals[0].votes_yes, sys.proposals[0].votes_no), (1, 1));
}

#[test]
fn second_vote_same_pair_rejected() {
    let mut sys = VotingSystem::new();
    let pid = open_proposal(&mut sys, key(1), 100, 0);
    assert!(sys.vote(VoteProposal { proposal: pid, voter: key(2) }, true, 10).is_ok());
    // A repeat with the same choice fails and moves nothing.
    let again = sys.vote(VoteProposal { proposal: pid, voter: key(2) }, true, 11);
    assert_eq!(again, Err(VotingError::DuplicateVote));
    // So does a repeat with the opposite choice.
    let flipped = sys.vote(VoteProposal { proposal: pid, voter: key(2) }, false, 12);
    assert_eq!(flipped, Err(VotingError::DuplicateVote));
    assert_eq!((sys.proposals[0].votes_yes, sys.proposals[0].votes_no), (1, 0));
    assert_eq!(sys.votes.len(), 1);
}

#[test]
fn same_voter_may_vote_on_two_proposals() {
    let mut sys = VotingSystem::new();
    let first = open_proposal(&mut sys, key(1), 100, 0);
    let second = open_proposal(&mut sys, key(1), 100, 0);
    assert!(sys.vote(VoteProposal { proposal: first, voter: key(2) }, true, 10).is_ok());
    assert!(sys.vote(VoteProposal { proposal: second, voter: key(2) }, false, 10).is_ok());
    assert_eq!((sys.proposals[0].votes_yes, sys.proposals[0].votes_no), (1, 0));
    assert_eq!((sys.proposals[1].votes_yes, sys.proposals[1].votes_no), (0, 1));
}

#[test]
fn vote_after_deadline_rejected_while_still_active() {
    let mut sys = VotingSystem::new();
    let pid = open_proposal(&mut sys, key(1), 100, 0);
    assert!(sys.proposals[0].is_active);
    let at_deadline = sys.vote(VoteProposal { proposal: pid, voter: key(2) }, true, 100);
    assert_eq!(at_deadline, Err(VotingError::DeadlinePassed));
    let past = sys.vote(VoteProposal { proposal: pid, voter: key(2) }, true, 500);
    assert_eq!(past, Err(VotingError::DeadlinePassed));
    assert!(sys.proposals[0].is_active);
    assert_eq!((sys.proposals[0].votes_yes, sys.proposals[0].votes_no), (0, 0));
}

#[test]
fn vote_on_closed_proposal_rejected() {
    let mut sys = VotingSystem::new();
    let pid = open_proposal(&mut sys, key(1), 100, 0);
    sys.close_proposal(CloseProposal { proposal: pid, creator: key(1) }, 100)
        .expect("creator closes after the deadline");
    let r = sys.vote(VoteProposal { proposal: pid, voter: key(2) }, true, 10);
    assert_eq!(r, Err(VotingError::ProposalClosed));
}

#[test]
fn vote_on_unknown_proposal_rejected() {
    let mut sys = VotingSystem::new();
    let r = sys.vote(VoteProposal { proposal: 7, voter: key(2) }, true, 10);
    assert_eq!(r, Err(VotingError::ProposalClosed));
}

#[test]
fn close_by_non_creator_rejected() {
    let mut sys = VotingSystem::new();
    let pid = open_proposal(&mut sys, key(1), 100, 0);
    let r = sys.close_proposal(CloseProposal { proposal: pid, creator: key(2) }, 200);
    assert_eq!(r, Err(VotingError::Unauthorized));
    assert!(sys.proposals[0].is_active);
}

#[test]
fn close_before_deadline_rejected() {
    let mut sys = VotingSystem::new();
    let pid = open_proposal(&mut sys, key(1), 100, 0);
    let r = sys.close_proposal(CloseProposal { proposal: pid, creator: key(1) }, 99);
    assert_eq!(r, Err(VotingError::TooEarlyToClose));
    assert!(sys.proposals[0].is_active);
}

#[test]
fn close_finalizes_tally() {
    let mut sys = VotingSystem::new();
    let pid = open_proposal(&mut sys, key(1), 100, 0);
    assert!(sys.vote(VoteProposal { proposal: pid, voter: key(2) }, true, 5).is_ok());
    let r = sys.close_proposal(CloseProposal { proposal: pid, creator: key(1) }, 100);
    assert_eq!(
        r,
        Ok(ProposalClosed { proposal: pid, votes_yes: 1, votes_no: 0, end_ts: 100 })
    );
    assert!(!sys.proposals[0].is_active);
}

#[test]
fn close_twice_is_an_idempotent_repeat() {
    let mut sys = VotingSystem::new();
    let pid = open_proposal(&mut sys, key(1), 100, 0);
    let first = sys.close_proposal(CloseProposal { proposal: pid, creator: key(1) }, 150);
    let second = sys.close_proposal(CloseProposal { proposal: pid, creator: key(1) }, 160);
    assert_eq!(first, second);
    assert!(!sys.proposals[0].is_active);
}

#[test]
fn full_lifecycle_scenario() {
    let mut sys = VotingSystem::new();
    let creator = key(1);
    let first_voter = key(2);
    let second_voter = key(3);
    let ev = sys
        .create_proposal(CreateProposal { creator }, String::from("adopt the plan?"), 100, 0)
        .expect("creation succeeds");
    assert_eq!((ev.start_ts, ev.end_ts), (0, 100));
    let pid = ev.proposal;

    assert!(sys.vote(VoteProposal { proposal: pid, voter: first_voter }, true, 10).is_ok());
    assert_eq!((sys.proposals[0].votes_yes, sys.proposals[0].votes_no), (1, 0));

    assert!(sys.vote(VoteProposal { proposal: pid, voter: second_voter }, false, 20).is_ok());
    assert_eq!((sys.proposals[0].votes_yes, sys.proposals[0].votes_no), (1, 1));

    let repeat = sys.vote(VoteProposal { proposal: pid, voter: first_voter }, true, 30);
    assert_eq!(repeat, Err(VotingError::DuplicateVote));
    assert_eq!((sys.proposals[0].votes_yes, sys.proposals[0].votes_no), (1, 1));

    let early = sys.close_proposal(CloseProposal { proposal: pid, creator }, 50);
    assert_eq!(early, Err(VotingError::TooEarlyToClose));

    let closed = sys.close_proposal(CloseProposal { proposal: pid, creator }, 101);
    assert_eq!(
        closed,
        Ok(ProposalClosed { proposal: pid, votes_yes: 1, votes_no: 1, end_ts: 100 })
    );
    assert!(!sys.proposals[0].is_active);
}
