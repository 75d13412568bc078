use teachlink::errors::GovernanceError;
use teachlink::governance::{GovernanceManager, ProposalStatus, VOTING_DURATION};

#[test]
fn votes_before_any_proposal_are_refused() {
    let mut g = GovernanceManager::new();
    assert_eq!(g.cast_vote(1, 1, true, 10, 0), Err(GovernanceError::ProposalsNotInitialized));
    assert_eq!(g.finalize_proposal(1, 0), Err(GovernanceError::ProposalsNotInitialized));
}

#[test]
fn one_weighted_vote_per_voter_then_majority() {
    let mut g = GovernanceManager::new();
    let id = g.create_proposal(9, b"upgrade".to_vec(), [7u8; 32], 100);
    assert_eq!(id, 1);
    assert_eq!(g.get_proposal(id).unwrap().end_time, 100 + VOTING_DURATION);
    assert_eq!(g.cast_vote(1, 2, true, 10, 100), Err(GovernanceError::GovernanceProposalNotFound));
    g.cast_vote(1, id, true, 10, 200).unwrap();
    assert_eq!(g.cast_vote(1, id, false, 10, 200), Err(GovernanceError::AlreadyVoted));
    g.cast_vote(2, id, false, 7, 200).unwrap();
    assert_eq!(g.finalize_proposal(id, 100 + VOTING_DURATION), Err(GovernanceError::VotingStillInProgress));
    assert_eq!(g.cast_vote(3, id, false, 7, 101 + VOTING_DURATION), Err(GovernanceError::VotingPeriodEnded));
    g.finalize_proposal(id, 101 + VOTING_DURATION).unwrap();
    let p = g.get_proposal(id).unwrap();
    assert_eq!((p.for_votes, p.against_votes), (10, 7));
    assert_eq!(p.status, ProposalStatus::Succeeded);
}

#[test]
fn ties_are_defeated_and_closed_proposals_take_no_votes() {
    let mut g = GovernanceManager::new();
    let id = g.create_proposal(9, b"t".to_vec(), [0u8; 32], 0);
    g.cast_vote(1, id, true, 5, 1).unwrap();
    g.cast_vote(2, id, false, 5, 1).unwrap();
    g.finalize_proposal(id, VOTING_DURATION + 1).unwrap();
    assert_eq!(g.get_proposal(id).unwrap().status, ProposalStatus::Defeated);
    let id2 = g.create_proposal(9, b"u".to_vec(), [0u8; 32], 0);
    assert_eq!(id2, 2);
}
