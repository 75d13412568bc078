//! Token-holder governance: proposals open for seven days, one weighted vote
//! per voter and proposal, and finalisation by simple majority.
use vstd::prelude::*;
use crate::errors::GovernanceError;
use crate::id_map::IdMap;
use crate::types::AccountId;

verus! {

/// How long a proposal is open for votes (7 days).
pub const VOTING_DURATION: u64 = 604_800;

/// Where a governance proposal stands.
#[derive(Copy, Clone, Debug, PartialEq, Eq, Structural)]
pub enum ProposalStatus {
    Active,
    Succeeded,
    Defeated,
    Executed,
    Canceled,
}

/// A governance proposal.
#[derive(Clone, Debug)]
pub struct Proposal {
    pub id: u64,
    pub proposer: AccountId,
    pub title: Vec<u8>,
    pub desc_hash: [u8; 32],
    pub end_time: u64,
    pub for_votes: i128,
    pub against_votes: i128,
    pub status: ProposalStatus,
}

/// A vote already cast: by `voter` on proposal `proposal_id`.
#[derive(Copy, Clone, Debug, PartialEq, Eq, Structural)]
pub struct VoteKey {
    pub proposal_id: u64,
    pub voter: AccountId,
}

/// The outcome of a finished vote.
pub open spec fn outcome(for_votes: i128, against_votes: i128) -> ProposalStatus {
    if for_votes > against_votes { ProposalStatus::Succeeded } else { ProposalStatus::Defeated }
}

/// Proposals and the votes cast.
#[derive(Clone)]
pub struct GovernanceManager {
    /// Whether any proposal was ever stored.
    pub proposals_initialized: bool,
    pub proposals: IdMap<Proposal>,
    /// Number of proposals ever created; the id of the last one.
    pub proposal_count: u64,
    /// Votes cast, each recorded once.
    pub votes: Vec<VoteKey>,
}

impl GovernanceManager {
    /// Tables are well formed.
    pub open spec fn wf(&self) -> bool {
        self.proposals.wf()
    }

    /// The votes cast, as a set.
    pub open spec fn voted(&self) -> Set<VoteKey> {
        self.votes@.to_set()
    }

    /// No proposals yet.
    pub fn new() -> (g: Self)
        ensures
            g.wf(),
            !g.proposals_initialized,
            g.proposals@ == Map::<u64, Proposal>::empty(),
            g.proposal_count == 0,
            g.voted() == Set::<VoteKey>::empty(),
    {
        let g = GovernanceManager { proposals_initialized: false, proposals: IdMap::new(), proposal_count: 0, votes: Vec::new() };
        assert(g.voted() =~= Set::<VoteKey>::empty());
        g
    }

    /// `proposer` opens a proposal at `now`; it gets the next id and is
    /// active for seven days.
    pub fn create_proposal(&mut self, proposer: AccountId, title: Vec<u8>, desc_hash: [u8; 32], now: u64) -> (id: u64)
        requires
            old(self).wf(),
            old(self).proposal_count < u64::MAX,
            now + VOTING_DURATION <= u64::MAX,
        ensures
            final(self).wf(),
            id == old(self).proposal_count + 1,
            final(self).proposal_count == id,
            final(self).proposals_initialized,
            final(self).proposals@ == old(self).proposals@.insert(id, Proposal {
                id,
                proposer,
                title,
                desc_hash,
                end_time: (now + VOTING_DURATION) as u64,
                for_votes: 0,
                against_votes: 0,
                status: ProposalStatus::Active,
            }),
            final(self).votes == old(self).votes,
    {
        let id = self.proposal_count + 1;
        let proposal = Proposal {
            id,
            proposer,
            title,
            desc_hash,
            end_time: now + VOTING_DURATION,
            for_votes: 0,
            against_votes: 0,
            status: ProposalStatus::Active,
        };
        self.proposals.insert(id, proposal);
        self.proposals_initialized = true;
        self.proposal_count = id;
        id
    }

    /// Whether `key` was already cast.
    fn has_voted(&self, key: VoteKey) -> (b: bool)
        ensures
            b == self.voted().contains(key),
    {
        let mut i: usize = 0;
        while i < self.votes.len()
            invariant
                i <= self.votes@.len(),
                forall|j: int| 0 <= j < i ==> self.votes@[j] != key,
            decreases self.votes@.len() - i,
        {
            if self.votes[i] == key {
                assert(self.votes@.contains(key));
                return true;
            }
            i = i + 1;
        }
        false
    }

    /// `voter` casts `weight` for or against proposal `proposal_id` at
    /// `now`, once, while it is active and open.
    pub fn cast_vote(&mut self, voter: AccountId, proposal_id: u64, support: bool, weight: i128, now: u64)
        -> (r: Result<(), GovernanceError>)
        requires
            old(self).wf(),
            old(self).proposals_initialized && old(self).proposals@.contains_key(proposal_id)
                && now <= old(self).proposals@[proposal_id].end_time
                && old(self).proposals@[proposal_id].status == ProposalStatus::Active
                && !old(self).voted().contains(VoteKey { proposal_id, voter }) ==> {
                let p = old(self).proposals@[proposal_id];
                if support {
                    i128::MIN <= p.for_votes + weight <= i128::MAX
                } else {
                    i128::MIN <= p.against_votes + weight <= i128::MAX
                }
            },
        ensures
            final(self).wf(),
            !old(self).proposals_initialized ==>
                r == Err::<(), GovernanceError>(GovernanceError::ProposalsNotInitialized) && *final(self) == *old(self),
            old(self).proposals_initialized && !old(self).proposals@.contains_key(proposal_id) ==>
                r == Err::<(), GovernanceError>(GovernanceError::GovernanceProposalNotFound) && *final(self) == *old(self),
            old(self).proposals_initialized && old(self).proposals@.contains_key(proposal_id) ==> {
                let p = old(self).proposals@[proposal_id];
                let key = VoteKey { proposal_id, voter };
                if now > p.end_time {
                    r == Err::<(), GovernanceError>(GovernanceError::VotingPeriodEnded) && *final(self) == *old(self)
                } else if p.status != ProposalStatus::Active {
                    r == Err::<(), GovernanceError>(GovernanceError::GovernanceProposalNotActive) && *final(self) == *old(self)
                } else if old(self).voted().contains(key) {
                    r == Err::<(), GovernanceError>(GovernanceError::AlreadyVoted) && *final(self) == *old(self)
                } else {
                    &&& r is Ok
                    &&& final(self).voted() == old(self).voted().insert(key)
                    &&& final(self).proposals@ == old(self).proposals@.insert(proposal_id, if support {
                        Proposal { for_votes: (p.for_votes + weight) as i128, ..p }
                    } else {
                        Proposal { against_votes: (p.against_votes + weight) as i128, ..p }
                    })
                    &&& final(self).proposal_count == old(self).proposal_count
                    &&& final(self).proposals_initialized
                }
            },
    {
        if !self.proposals_initialized {
            return Err(GovernanceError::ProposalsNotInitialized);
        }
        let (end_time, status) = match self.proposals.get(proposal_id) {
            Some(p) => (p.end_time, p.status),
            None => { return Err(GovernanceError::GovernanceProposalNotFound); },
        };
        if now > end_time {
            return Err(GovernanceError::VotingPeriodEnded);
        }
        if status != ProposalStatus::Active {
            return Err(GovernanceError::GovernanceProposalNotActive);
        }
        let key = VoteKey { proposal_id, voter };
        if self.has_voted(key) {
            return Err(GovernanceError::AlreadyVoted);
        }
        let mut p = self.proposals.remove(proposal_id).unwrap();
        if support {
            p.for_votes = p.for_votes + weight;
        } else {
            p.against_votes = p.against_votes + weight;
        }
        self.proposals.insert(proposal_id, p);
        let ghost old_votes = self.votes@;
        self.votes.push(key);
        proof {
            let p0 = old(self).proposals@[proposal_id];
            assert(self.proposals@ =~= old(self).proposals@.insert(proposal_id, if support {
                Proposal { for_votes: (p0.for_votes + weight) as i128, ..p0 }
            } else {
                Proposal { against_votes: (p0.against_votes + weight) as i128, ..p0 }
            }));
            assert forall|k: VoteKey| #[trigger] self.voted().contains(k) == old(self).voted().insert(key).contains(k) by {
                if old_votes.contains(k) {
                    let i = choose|i: int| 0 <= i < old_votes.len() && old_votes[i] == k;
                    assert(self.votes@[i] == k);
                }
                if self.votes@.contains(k) {
                    let i = choose|i: int| 0 <= i < self.votes@.len() && self.votes@[i] == k;
                    if i < old_votes.len() { assert(old_votes[i] == k); }
                }
                if k == key { assert(self.votes@[old_votes.len() as int] == k); }
            }
            assert(self.voted() =~= old(self).voted().insert(key));
        }
        Ok(())
    }

    /// Close the vote on proposal `proposal_id` once its period is over at
    /// `now`: it succeeds with more votes for than against, and is defeated
    /// otherwise.
    pub fn finalize_proposal(&mut self, proposal_id: u64, now: u64) -> (r: Result<(), GovernanceError>)
        requires
            old(self).wf(),
        ensures
            final(self).wf(),
            !old(self).proposals_initialized ==>
                r == Err::<(), GovernanceError>(GovernanceError::ProposalsNotInitialized) && *final(self) == *old(self),
            old(self).proposals_initialized && !old(self).proposals@.contains_key(proposal_id) ==>
                r == Err::<(), GovernanceError>(GovernanceError::GovernanceProposalNotFound) && *final(self) == *old(self),
            old(self).proposals_initialized && old(self).proposals@.contains_key(proposal_id) ==> {
                let p = old(self).proposals@[proposal_id];
                let s = outcome(p.for_votes, p.against_votes);
                if now <= p.end_time {
                    r == Err::<(), GovernanceError>(GovernanceError::VotingStillInProgress) && *final(self) == *old(self)
                } else {
                    &&& r is Ok
                    &&& final(self).proposals@ == old(self).proposals@.insert(proposal_id, Proposal { status: s, ..p })
                    &&& final(self).votes == old(self).votes
                    &&& final(self).proposal_count == old(self).proposal_count
                    &&& final(self).proposals_initialized
                }
            },
    {
        if !self.proposals_initialized {
            return Err(GovernanceError::ProposalsNotInitialized);
        }
        let end_time = match self.proposals.get(proposal_id) {
            Some(p) => p.end_time,
            None => { return Err(GovernanceError::GovernanceProposalNotFound); },
        };
        if now <= end_time {
            return Err(GovernanceError::VotingStillInProgress);
        }
        let mut p = self.proposals.remove(proposal_id).unwrap();
        p.status = if p.for_votes > p.against_votes { ProposalStatus::Succeeded } else { ProposalStatus::Defeated };
        let s = p.status;
        self.proposals.insert(proposal_id, p);
        proof {
            let p0 = old(self).proposals@[proposal_id];
            assert(self.proposals@ =~= old(self).proposals@.insert(proposal_id, Proposal { status: s, ..p0 }));
        }
        Ok(())
    }

    /// The proposal `proposal_id`, if any.
    pub fn get_proposal(&self, proposal_id: u64) -> (r: Option<&Proposal>)
        requires
            self.wf(),
        ensures
            match r {
                Some(p) => self.proposals@.contains_key(proposal_id) && *p == self.proposals@[proposal_id],
                None => !self.proposals@.contains_key(proposal_id),
            },
    {
        self.proposals.get(proposal_id)
    }
}

/// A voter who voted on a proposal is refused a second vote on it, while
/// voting on another proposal stays open to it.
pub proof fn law_one_vote_per_voter_and_proposal(voted: Set<VoteKey>, proposal_id: u64, voter: AccountId, other: u64)
    requires
        other != proposal_id,
        !voted.contains(VoteKey { proposal_id: other, voter }),
    ensures
        voted.insert(VoteKey { proposal_id, voter }).contains(VoteKey { proposal_id, voter }),
        !voted.insert(VoteKey { proposal_id, voter }).contains(VoteKey { proposal_id: other, voter }),
{
}

/// A proposal succeeds exactly when strictly more weight voted for it.
pub proof fn law_majority_decides(for_votes: i128, against_votes: i128)
    ensures
        outcome(for_votes, against_votes) == ProposalStatus::Succeeded <==> for_votes > against_votes,
        for_votes == against_votes ==> outcome(for_votes, against_votes) == ProposalStatus::Defeated,
{
}

} // verus!
