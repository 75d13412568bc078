//! Byzantine fault tolerant consensus among bridge validators.
//!
//! Validators register with a stake.  A bridge proposal needs
//! `floor(2n/3) + 1` approving votes, `n` being the number of active
//! validators when it was created; with `n = 3f + 1` this tolerates `f`
//! faulty validators.  Each validator votes once per proposal; voting keeps it
//! active and raises its reputation.  A proposal expires when its timestamp
//! or its ledger-sequence deadline passes.  Rotation deactivates validators
//! with low reputation or too little stake.
use vstd::prelude::*;
use crate::errors::BridgeError;
use crate::id_map::{IdMap, count_where, keys_where, lemma_count_where_step, lemma_keys_where_step};
use crate::types::{AccountId, CrossChainMessage};
use crate::ledger_time::{seconds_to_ledger_delta, ledger_delta};

verus! {

/// Minimum stake required to become a validator (100 tokens, 6 decimals).
pub const MIN_VALIDATOR_STAKE: i128 = 100_000_000;

/// Proposal timeout in seconds (24 hours).
pub const PROPOSAL_TIMEOUT: u64 = 86_400;

/// Consensus rounds per rotation epoch.
pub const ROTATION_EPOCH_ROUNDS: u64 = 100;

/// Minimum reputation for a validator to stay active.
pub const MIN_ACTIVE_REPUTATION: u32 = 40;

/// Where a proposal stands.
#[derive(Copy, Clone, Debug, PartialEq, Eq, Structural)]
pub enum ProposalStatus {
    Pending,
    Approved,
    Rejected,
    Expired,
}

/// A registered validator.
#[derive(Copy, Clone, Debug, PartialEq, Eq, Structural)]
pub struct ValidatorInfo {
    pub address: AccountId,
    pub stake: i128,
    pub reputation_score: u32,
    pub is_active: bool,
    pub joined_at: u64,
    pub last_activity: u64,
    pub total_validations: u64,
    pub missed_validations: u64,
    pub slashed_amount: i128,
}

/// The validator set as consensus sees it.
#[derive(Copy, Clone, Debug, PartialEq, Eq, Structural)]
pub struct ConsensusState {
    pub total_stake: i128,
    pub active_validators: u32,
    pub byzantine_threshold: u32,
    pub last_consensus_round: u64,
}

/// A proposal to release a cross-chain message, with its votes.
#[derive(Clone)]
pub struct BridgeProposal {
    pub proposal_id: u64,
    pub message: CrossChainMessage,
    /// Each voter's vote (true approves).
    pub votes: IdMap<bool>,
    /// Approving votes.
    pub vote_count: u32,
    pub required_votes: u32,
    pub status: ProposalStatus,
    pub created_at: u64,
    pub expires_at: u64,
}

/// A proposal was created.
#[derive(Clone)]
pub struct ProposalCreatedEvent {
    pub proposal_id: u64,
    pub message: CrossChainMessage,
    pub required_votes: u32,
}

/// A proposal reached consensus.
#[derive(Copy, Clone, Debug, PartialEq, Eq, Structural)]
pub struct ProposalExecutedEvent {
    pub proposal_id: u64,
    pub status: ProposalStatus,
    pub executed_at: u64,
}

/// The approving votes required among `n` active validators.
pub open spec fn byzantine_threshold(n: u32) -> u32 {
    if n > 0 { ((2 * n) / 3 + 1) as u32 } else { 1 }
}

/// `a + b` clamped to the range of `i128`.
pub open spec fn sat_add_i128(a: i128, b: i128) -> i128 {
    if a + b > i128::MAX { i128::MAX } else if a + b < i128::MIN { i128::MIN } else { (a + b) as i128 }
}

/// The stake recorded for `k` (0 when none).
pub open spec fn stake_of(stakes: Map<u64, i128>, k: u64) -> i128 {
    if stakes.contains_key(k) { stakes[k] } else { 0 }
}

/// The summed stake of the active validators, accumulated in key order and
/// clamped to the range of `i128`.
pub open spec fn active_stake(s: Seq<(u64, bool)>, stakes: Map<u64, i128>) -> i128
    decreases s.len(),
{
    if s.len() == 0 {
        0
    } else {
        let r = active_stake(s.drop_last(), stakes);
        if s.last().1 { sat_add_i128(r, stake_of(stakes, s.last().0)) } else { r }
    }
}

/// The consensus state for a validator table at time `now`.
pub open spec fn consensus_for(validators: Seq<(u64, bool)>, stakes: Map<u64, i128>, now: u64) -> ConsensusState {
    let n = count_where(validators, |b: bool| b) as u32;
    ConsensusState {
        total_stake: active_stake(validators, stakes),
        active_validators: n,
        byzantine_threshold: byzantine_threshold(n),
        last_consensus_round: now,
    }
}

/// The state consensus starts from.
pub open spec fn default_consensus() -> ConsensusState {
    ConsensusState { total_stake: 0, active_validators: 0, byzantine_threshold: 1, last_consensus_round: 0 }
}

/// The stored consensus data.
#[derive(Clone)]
pub struct BFTConsensus {
    /// Active flags by validator.
    pub validators: IdMap<bool>,
    pub validator_info: IdMap<ValidatorInfo>,
    /// Ledger sequence of each validator's last activity.
    pub activity_seq: IdMap<u32>,
    pub stakes: IdMap<i128>,
    pub proposals: IdMap<BridgeProposal>,
    /// The last proposal id handed out.
    pub proposal_counter: u64,
    /// Ledger-sequence deadlines by proposal id.
    pub proposal_expires_seq: IdMap<u32>,
    pub consensus_state: Option<ConsensusState>,
    pub rotation_epoch: u64,
}

impl BFTConsensus {
    pub open spec fn wf(&self) -> bool {
        &&& self.validators.wf()
        &&& self.validator_info.wf()
        &&& self.activity_seq.wf()
        &&& self.stakes.wf()
        &&& self.proposals.wf()
        &&& self.proposal_expires_seq.wf()
        &&& self.validators.entries().len() < 0x8000_0000
        &&& forall|k: u64| #[trigger] self.proposals@.contains_key(k) ==> self.proposals@[k].votes.wf()
    }

    /// The consensus state (the starting state when none is stored).
    pub open spec fn state(&self) -> ConsensusState {
        match self.consensus_state { Some(s) => s, None => default_consensus() }
    }

    /// Whether `v` is an active validator.
    pub open spec fn active(&self, v: AccountId) -> bool {
        self.validators@.contains_key(v) && self.validators@[v]
    }

    /// Nothing registered yet.
    pub fn new() -> (c: Self)
        ensures
            c.wf(),
            c.validators@ == Map::<u64, bool>::empty(),
            c.validator_info@ == Map::<u64, ValidatorInfo>::empty(),
            c.activity_seq@ == Map::<u64, u32>::empty(),
            c.stakes@ == Map::<u64, i128>::empty(),
            c.proposals@ == Map::<u64, BridgeProposal>::empty(),
            c.proposal_counter == 0,
            c.proposal_expires_seq@ == Map::<u64, u32>::empty(),
            c.consensus_state is None,
            c.rotation_epoch == 0,
    {
        BFTConsensus {
            validators: IdMap::new(),
            validator_info: IdMap::new(),
            activity_seq: IdMap::new(),
            stakes: IdMap::new(),
            proposals: IdMap::new(),
            proposal_counter: 0,
            proposal_expires_seq: IdMap::new(),
            consensus_state: None,
            rotation_epoch: 0,
        }
    }

    /// The approving votes required among `n` active validators:
    /// `floor(2n/3) + 1`, and 1 when there are none.
    pub fn byzantine_threshold_for(n: u32) -> (t: u32)
        requires
            n < 0x8000_0000,
        ensures
            t == byzantine_threshold(n),
    {
        if n > 0 { (2 * n) / 3 + 1 } else { 1 }
    }

    /// Recompute the consensus state from the validator table at `now`.
    fn update_consensus_state(&mut self, now: u64)
        requires
            old(self).wf(),
        ensures
            final(self).wf(),
            *final(self) == (BFTConsensus {
                consensus_state: Some(consensus_for(old(self).validators.entries(), old(self).stakes@, now)),
                ..*old(self)
            }),
    {
        let ghost s = self.validators.entries();
        let ghost is_active = |b: bool| b;
        let mut total_stake: i128 = 0;
        let mut active_validators: u32 = 0;
        let mut i: usize = 0;
        while i < self.validators.len()
            invariant
                self.wf(),
                s == self.validators.entries(),
                is_active == (|b: bool| b),
                i <= s.len(),
                active_validators == count_where(s.take(i as int), is_active),
                active_validators <= i,
                total_stake == active_stake(s.take(i as int), self.stakes@),
            decreases s.len() - i,
        {
            proof {
                lemma_count_where_step(s, i as int, is_active);
                assert(s.take(i + 1).drop_last() =~= s.take(i as int));
                assert(s.take(i + 1).last() == s[i as int]);
            }
            if *self.validators.value_at(i) {
                active_validators = active_validators + 1;
                let stake = match self.stakes.get(self.validators.key_at(i)) {
                    Some(st) => *st,
                    None => 0,
                };
                total_stake = match total_stake.checked_add(stake) {
                    Some(t) => t,
                    None => if stake > 0 { i128::MAX } else { i128::MIN },
                };
            }
            i = i + 1;
        }
        proof { assert(s.take(i as int) =~= s); }
        let byzantine_threshold = Self::byzantine_threshold_for(active_validators);
        self.consensus_state = Some(ConsensusState {
            total_stake,
            active_validators,
            byzantine_threshold,
            last_consensus_round: now,
        });
    }

    /// Register `validator` with `stake` at `now` (ledger `sequence`).  The
    /// stake must be at least `MIN_VALIDATOR_STAKE` and the validator not yet
    /// active.  It starts with a perfect reputation (100), and the consensus
    /// state is recomputed.
    pub fn register_validator(&mut self, validator: AccountId, stake: i128, now: u64, sequence: u32) -> (r: Result<(), BridgeError>)
        requires
            old(self).wf(),
            old(self).validators.entries().len() < 0x7fff_ffff,
        ensures
            final(self).wf(),
            stake < MIN_VALIDATOR_STAKE ==> r == Err::<(), BridgeError>(BridgeError::InsufficientStake) && *final(self) == *old(self),
            stake >= MIN_VALIDATOR_STAKE && old(self).active(validator) ==>
                r == Err::<(), BridgeError>(BridgeError::AlreadyInitialized) && *final(self) == *old(self),
            stake >= MIN_VALIDATOR_STAKE && !old(self).active(validator) ==> {
                &&& r is Ok
                &&& final(self).validators@ == old(self).validators@.insert(validator, true)
                &&& final(self).validator_info@ == old(self).validator_info@.insert(validator, ValidatorInfo {
                    address: validator,
                    stake,
                    reputation_score: 100,
                    is_active: true,
                    joined_at: now,
                    last_activity: now,
                    total_validations: 0,
                    missed_validations: 0,
                    slashed_amount: 0,
                })
                &&& final(self).activity_seq@ == old(self).activity_seq@.insert(validator, sequence)
                &&& final(self).stakes@ == old(self).stakes@.insert(validator, stake)
                &&& final(self).consensus_state == Some(consensus_for(final(self).validators.entries(), final(self).stakes@, now))
                &&& final(self).proposals == old(self).proposals
                &&& final(self).proposal_counter == old(self).proposal_counter
                &&& final(self).rotation_epoch == old(self).rotation_epoch
            },
    {
        if stake < MIN_VALIDATOR_STAKE {
            return Err(BridgeError::InsufficientStake);
        }
        let registered = match self.validators.get(validator) {
            Some(b) => *b,
            None => false,
        };
        if registered {
            return Err(BridgeError::AlreadyInitialized);
        }
        self.validator_info.insert(validator, ValidatorInfo {
            address: validator,
            stake,
            reputation_score: 100,
            is_active: true,
            joined_at: now,
            last_activity: now,
            total_validations: 0,
            missed_validations: 0,
            slashed_amount: 0,
        });
        self.activity_seq.insert(validator, sequence);
        self.stakes.insert(validator, stake);
        let ghost before = self.validators.entries().len();
        self.validators.insert(validator, true);
        proof { lemma_insert_len(old(self).validators, self.validators, validator, true); }
        self.update_consensus_state(now);
        Ok(())
    }

    /// Unregister an active `validator` at `now`, returning its stake (0 when
    /// none is recorded).  Its flag is cleared, its info and stake removed,
    /// and the consensus state recomputed.
    pub fn unregister_validator(&mut self, validator: AccountId, now: u64) -> (r: Result<i128, BridgeError>)
        requires
            old(self).wf(),
            old(self).validators.entries().len() < 0x7fff_ffff,
        ensures
            final(self).wf(),
            !old(self).active(validator) ==> r == Err::<i128, BridgeError>(BridgeError::InvalidValidatorSignature) && *final(self) == *old(self),
            old(self).active(validator) ==> {
                &&& r == Ok::<i128, BridgeError>(stake_of(old(self).stakes@, validator))
                &&& final(self).validators@ == old(self).validators@.insert(validator, false)
                &&& final(self).validator_info@ == old(self).validator_info@.remove(validator)
                &&& final(self).stakes@ == old(self).stakes@.remove(validator)
                &&& final(self).consensus_state == Some(consensus_for(final(self).validators.entries(), final(self).stakes@, now))
                &&& final(self).proposals == old(self).proposals
                &&& final(self).proposal_counter == old(self).proposal_counter
            },
    {
        let registered = match self.validators.get(validator) {
            Some(b) => *b,
            None => false,
        };
        if !registered {
            return Err(BridgeError::InvalidValidatorSignature);
        }
        let stake = match self.stakes.get(validator) {
            Some(s) => *s,
            None => 0,
        };
        self.validators.insert(validator, false);
        proof { lemma_insert_len(old(self).validators, self.validators, validator, false); }
        self.validator_info.remove(validator);
        self.stakes.remove(validator);
        self.update_consensus_state(now);
        Ok(stake)
    }

    /// Create a proposal for `message` at `now` (ledger `sequence`).  It needs
    /// the current Byzantine threshold of approving votes and expires after
    /// `PROPOSAL_TIMEOUT` seconds or the ledgers covering them.
    pub fn create_proposal(&mut self, message: CrossChainMessage, now: u64, sequence: u32) -> (r: Result<ProposalCreatedEvent, BridgeError>)
        requires
            old(self).wf(),
            old(self).proposal_counter < u64::MAX,
            now <= u64::MAX - PROPOSAL_TIMEOUT,
        ensures
            final(self).wf(),
            ({
                let id = (old(self).proposal_counter + 1) as u64;
                let d = ledger_delta(PROPOSAL_TIMEOUT as nat);
                &&& r matches Ok(ev) && ev.proposal_id == id && ev.required_votes == old(self).state().byzantine_threshold
                    && ev.message.nonce == message.nonce && ev.message.amount == message.amount
                    && ev.message.recipient == message.recipient && ev.message.token == message.token
                &&& final(self).proposal_counter == id
                &&& final(self).proposals@.dom() == old(self).proposals@.dom().insert(id)
                &&& forall|k: u64| k != id && #[trigger] old(self).proposals@.contains_key(k) ==> final(self).proposals@[k] == old(self).proposals@[k]
                &&& final(self).proposals@[id].proposal_id == id
                &&& final(self).proposals@[id].message == message
                &&& final(self).proposals@[id].votes@ == Map::<u64, bool>::empty()
                &&& final(self).proposals@[id].vote_count == 0
                &&& final(self).proposals@[id].required_votes == old(self).state().byzantine_threshold
                &&& final(self).proposals@[id].status == ProposalStatus::Pending
                &&& final(self).proposals@[id].created_at == now
                &&& final(self).proposals@[id].expires_at == now + PROPOSAL_TIMEOUT
                &&& final(self).proposal_expires_seq@ == old(self).proposal_expires_seq@.insert(id,
                    if sequence + d > u32::MAX { u32::MAX } else { (sequence + d) as u32 })
                &&& final(self).validators == old(self).validators
                &&& final(self).validator_info == old(self).validator_info
                &&& final(self).stakes == old(self).stakes
                &&& final(self).consensus_state == old(self).consensus_state
            }),
    {
        let proposal_counter = self.proposal_counter + 1;
        let required_votes = match self.consensus_state {
            Some(s) => s.byzantine_threshold,
            None => 1,
        };
        let event_message = message.duplicate();
        let proposal = BridgeProposal {
            proposal_id: proposal_counter,
            message,
            votes: IdMap::new(),
            vote_count: 0,
            required_votes,
            status: ProposalStatus::Pending,
            created_at: now,
            expires_at: now + PROPOSAL_TIMEOUT,
        };
        self.proposals.insert(proposal_counter, proposal);
        self.proposal_counter = proposal_counter;
        let expires_seq = sequence.saturating_add(seconds_to_ledger_delta(PROPOSAL_TIMEOUT));
        self.proposal_expires_seq.insert(proposal_counter, expires_seq);
        Ok(ProposalCreatedEvent { proposal_id: proposal_counter, message: event_message, required_votes })
    }

    /// Whether proposal `id` (timestamp deadline `expires_at`) has expired at
    /// `now` and ledger `sequence`.
    pub open spec fn proposal_expired(&self, id: u64, expires_at: u64, now: u64, sequence: u32) -> bool {
        now > expires_at || (self.proposal_expires_seq@.contains_key(id) && sequence > self.proposal_expires_seq@[id])
    }

    /// The error `vote_on_proposal` refuses with, if any; an expired proposal
    /// is also marked `Expired`.
    pub open spec fn vote_error(&self, validator: AccountId, proposal_id: u64, now: u64, sequence: u32) -> Option<BridgeError> {
        if !self.active(validator) {
            Some(BridgeError::ValidatorNotActive)
        } else if !self.proposals@.contains_key(proposal_id) {
            Some(BridgeError::ProposalNotFound)
        } else if self.proposals@[proposal_id].status != ProposalStatus::Pending {
            Some(BridgeError::ProposalExpired)
        } else if self.proposal_expired(proposal_id, self.proposals@[proposal_id].expires_at, now, sequence) {
            Some(BridgeError::ProposalExpired)
        } else if self.proposals@[proposal_id].votes@.contains_key(validator) {
            Some(BridgeError::ProposalAlreadyVoted)
        } else {
            None
        }
    }

    /// `validator` votes `approve` on `proposal_id` at `now` (ledger
    /// `sequence`).  The vote is recorded once; an approval adds to the count.
    /// The voter's activity is recorded and its reputation raised by one
    /// (capped at 100).  When approvals reach the required number the
    /// proposal is `Approved` and the consensus round becomes `now`; the
    /// execution event is then handed back.
    pub fn vote_on_proposal(&mut self, validator: AccountId, proposal_id: u64, approve: bool, now: u64, sequence: u32)
        -> (r: Result<Option<ProposalExecutedEvent>, BridgeError>)
        requires
            old(self).wf(),
            old(self).vote_error(validator, proposal_id, now, sequence) is None ==> {
                &&& approve ==> old(self).proposals@[proposal_id].vote_count < u32::MAX
                &&& old(self).validator_info@.contains_key(validator)
                    ==> old(self).validator_info@[validator].total_validations < u64::MAX
            },
        ensures
            final(self).wf(),
            match old(self).vote_error(validator, proposal_id, now, sequence) {
                Some(e) => r matches Err(e2) && e2 == e && (
                    if old(self).active(validator) && old(self).proposals@.contains_key(proposal_id)
                        && old(self).proposals@[proposal_id].status == ProposalStatus::Pending
                        && old(self).proposal_expired(proposal_id, old(self).proposals@[proposal_id].expires_at, now, sequence) {
                        final(self).proposals@ == old(self).proposals@.insert(proposal_id,
                            BridgeProposal { status: ProposalStatus::Expired, ..old(self).proposals@[proposal_id] })
                        && *final(self) == (BFTConsensus { proposals: final(self).proposals, ..*old(self) })
                    } else {
                        *final(self) == *old(self)
                    }
                ),
                None => {
                    let p = old(self).proposals@[proposal_id];
                    let count = if approve { (p.vote_count + 1) as u32 } else { p.vote_count };
                    let reached = count >= p.required_votes;
                    &&& final(self).proposals@.dom() == old(self).proposals@.dom()
                    &&& forall|k: u64| k != proposal_id && #[trigger] old(self).proposals@.contains_key(k) ==> final(self).proposals@[k] == old(self).proposals@[k]
                    &&& final(self).proposals@[proposal_id].votes@ == p.votes@.insert(validator, approve)
                    &&& final(self).proposals@[proposal_id] == (BridgeProposal {
                        votes: final(self).proposals@[proposal_id].votes,
                        vote_count: count,
                        status: if reached { ProposalStatus::Approved } else { ProposalStatus::Pending },
                        ..p
                    })
                    &&& final(self).proposal_expires_seq == old(self).proposal_expires_seq
                    &&& final(self).proposal_counter == old(self).proposal_counter
                    &&& final(self).rotation_epoch == old(self).rotation_epoch
                    &&& final(self).activity_seq@ == old(self).activity_seq@.insert(validator, sequence)
                    &&& old(self).validator_info@.contains_key(validator) ==> final(self).validator_info@ == old(self).validator_info@.insert(validator,
                        ValidatorInfo {
                            last_activity: now,
                            total_validations: (old(self).validator_info@[validator].total_validations + 1) as u64,
                            reputation_score: if old(self).validator_info@[validator].reputation_score >= 99 { 100 }
                                else { (old(self).validator_info@[validator].reputation_score + 1) as u32 },
                            ..old(self).validator_info@[validator]
                        })
                    &&& !old(self).validator_info@.contains_key(validator) ==> final(self).validator_info@ == old(self).validator_info@
                    &&& final(self).validators == old(self).validators
                    &&& final(self).stakes == old(self).stakes
                    &&& reached ==> r == Ok::<Option<ProposalExecutedEvent>, BridgeError>(Some(ProposalExecutedEvent {
                            proposal_id, status: ProposalStatus::Approved, executed_at: now }))
                        && final(self).consensus_state == Some(ConsensusState { last_consensus_round: now, ..old(self).state() })
                    &&& !reached ==> r == Ok::<Option<ProposalExecutedEvent>, BridgeError>(None)
                        && final(self).consensus_state == old(self).consensus_state
                },
            },
    {
        let active = match self.validators.get(validator) {
            Some(b) => *b,
            None => false,
        };
        if !active {
            return Err(BridgeError::ValidatorNotActive);
        }
        let (status, expires_at, voted) = match self.proposals.get(proposal_id) {
            Some(p) => (p.status, p.expires_at, p.votes.contains_key(validator)),
            None => return Err(BridgeError::ProposalNotFound),
        };
        if status != ProposalStatus::Pending {
            return Err(BridgeError::ProposalExpired);
        }
        let mut expired = now > expires_at;
        if !expired {
            match self.proposal_expires_seq.get(proposal_id) {
                Some(seq) => { expired = sequence > *seq; },
                None => {},
            }
        }
        if expired {
            match self.proposals.remove(proposal_id) {
                Some(mut proposal) => {
                    proposal.status = ProposalStatus::Expired;
                    self.proposals.insert(proposal_id, proposal);
                },
                None => {},
            }
            return Err(BridgeError::ProposalExpired);
        }
        if voted {
            return Err(BridgeError::ProposalAlreadyVoted);
        }
        let mut proposal = match self.proposals.remove(proposal_id) {
            Some(p) => p,
            None => return Err(BridgeError::ProposalNotFound),
        };
        proposal.votes.insert(validator, approve);
        if approve {
            proposal.vote_count = proposal.vote_count + 1;
        }
        let reached = proposal.vote_count >= proposal.required_votes;
        self.proposals.insert(proposal_id, proposal);
        self.update_validator_activity(validator, now, sequence);
        self.boost_reputation(validator);
        proof {
            if !old(self).validator_info@.contains_key(validator) {
                assert(self.validator_info@ =~= old(self).validator_info@);
            }
        }
        if reached {
            match self.execute_proposal(proposal_id, now) {
                Ok(ev) => Ok(Some(ev)),
                Err(e) => Err(e),
            }
        } else {
            Ok(None)
        }
    }

    /// Mark proposal `proposal_id` approved and start a consensus round at
    /// `now`.
    pub fn execute_proposal(&mut self, proposal_id: u64, now: u64) -> (r: Result<ProposalExecutedEvent, BridgeError>)
        requires
            old(self).wf(),
        ensures
            final(self).wf(),
            !old(self).proposals@.contains_key(proposal_id) ==>
                r == Err::<ProposalExecutedEvent, BridgeError>(BridgeError::ProposalNotFound) && *final(self) == *old(self),
            old(self).proposals@.contains_key(proposal_id) ==> {
                &&& r == Ok::<ProposalExecutedEvent, BridgeError>(ProposalExecutedEvent {
                    proposal_id, status: ProposalStatus::Approved, executed_at: now })
                &&& final(self).proposals@ == old(self).proposals@.insert(proposal_id,
                    BridgeProposal { status: ProposalStatus::Approved, ..old(self).proposals@[proposal_id] })
                &&& final(self).consensus_state == Some(ConsensusState { last_consensus_round: now, ..old(self).state() })
                &&& final(self).validators == old(self).validators
                &&& final(self).validator_info == old(self).validator_info
                &&& final(self).stakes == old(self).stakes
                &&& final(self).activity_seq == old(self).activity_seq
                &&& final(self).proposal_expires_seq == old(self).proposal_expires_seq
                &&& final(self).proposal_counter == old(self).proposal_counter
                &&& final(self).rotation_epoch == old(self).rotation_epoch
            },
    {
        if !self.proposals.contains_key(proposal_id) {
            return Err(BridgeError::ProposalNotFound);
        }
        let mut proposal = self.proposals.remove(proposal_id).unwrap();
        proposal.status = ProposalStatus::Approved;
        self.proposals.insert(proposal_id, proposal);
        proof {
            assert(self.proposals@ =~= old(self).proposals@.insert(proposal_id,
                BridgeProposal { status: ProposalStatus::Approved, ..old(self).proposals@[proposal_id] }));
        }
        let mut state = match self.consensus_state {
            Some(s) => s,
            None => ConsensusState { total_stake: 0, active_validators: 0, byzantine_threshold: 1, last_consensus_round: 0 },
        };
        state.last_consensus_round = now;
        self.consensus_state = Some(state);
        Ok(ProposalExecutedEvent { proposal_id, status: ProposalStatus::Approved, executed_at: now })
    }

    /// Record that `validator` acted at `now` (ledger `sequence`): a
    /// registered validator's last activity moves to `now` and its
    /// validations grow by one.
    pub fn update_validator_activity(&mut self, validator: AccountId, now: u64, sequence: u32)
        requires
            old(self).wf(),
            old(self).validator_info@.contains_key(validator) ==> old(self).validator_info@[validator].total_validations < u64::MAX,
        ensures
            final(self).wf(),
            old(self).validator_info@.contains_key(validator) ==> final(self).validator_info@ == old(self).validator_info@.insert(validator,
                ValidatorInfo {
                    last_activity: now,
                    total_validations: (old(self).validator_info@[validator].total_validations + 1) as u64,
                    ..old(self).validator_info@[validator]
                }),
            !old(self).validator_info@.contains_key(validator) ==> final(self).validator_info@ == old(self).validator_info@,
            final(self).activity_seq@ == old(self).activity_seq@.insert(validator, sequence),
            final(self).proposals == old(self).proposals,
            final(self).validators == old(self).validators,
            final(self).stakes == old(self).stakes,
            final(self).consensus_state == old(self).consensus_state,
            final(self).proposal_expires_seq == old(self).proposal_expires_seq,
            final(self).proposal_counter == old(self).proposal_counter,
            final(self).rotation_epoch == old(self).rotation_epoch,
    {
        match self.validator_info.remove(validator) {
            Some(mut info) => {
                info.last_activity = now;
                info.total_validations = info.total_validations + 1;
                self.validator_info.insert(validator, info);
            },
            None => {
                proof { assert(self.validator_info@ =~= old(self).validator_info@); }
            },
        }
        self.activity_seq.insert(validator, sequence);
    }

    /// The validators marked active, in address order.
    pub fn get_active_validators(&self) -> (ids: Vec<u64>)
        ensures
            ids@ == keys_where(self.validators.entries(), |b: bool| b),
    {
        let ghost p = |b: bool| b;
        let mut result: Vec<u64> = Vec::new();
        let mut i: usize = 0;
        while i < self.validators.len()
            invariant
                i <= self.validators.entries().len(),
                p == |b: bool| b,
                result@ == keys_where(self.validators.entries().take(i as int), p),
            decreases self.validators.entries().len() - i,
        {
            proof { lemma_keys_where_step(self.validators.entries(), i as int, p); }
            if *self.validators.value_at(i) {
                result.push(self.validators.key_at(i));
            }
            i = i + 1;
        }
        proof { assert(self.validators.entries().take(i as int) =~= self.validators.entries()); }
        result
    }

    /// Raise the reputation of a registered `validator` by one, capped at
    /// 100.
    pub fn boost_reputation(&mut self, validator: AccountId)
        requires
            old(self).wf(),
        ensures
            final(self).wf(),
            old(self).validator_info@.contains_key(validator) ==> final(self).validator_info@ == old(self).validator_info@.insert(validator,
                ValidatorInfo {
                    reputation_score: if old(self).validator_info@[validator].reputation_score >= 99 { 100 }
                        else { (old(self).validator_info@[validator].reputation_score + 1) as u32 },
                    ..old(self).validator_info@[validator]
                }),
            !old(self).validator_info@.contains_key(validator) ==> final(self).validator_info@ == old(self).validator_info@,
            final(self).activity_seq == old(self).activity_seq,
            final(self).proposals == old(self).proposals,
            final(self).validators == old(self).validators,
            final(self).stakes == old(self).stakes,
            final(self).consensus_state == old(self).consensus_state,
            final(self).proposal_expires_seq == old(self).proposal_expires_seq,
            final(self).proposal_counter == old(self).proposal_counter,
            final(self).rotation_epoch == old(self).rotation_epoch,
    {
        match self.validator_info.remove(validator) {
            Some(mut info) => {
                info.reputation_score = if info.reputation_score >= 99 { 100 } else { info.reputation_score + 1 };
                self.validator_info.insert(validator, info);
            },
            None => {
                proof { assert(self.validator_info@ =~= old(self).validator_info@); }
            },
        }
    }

    /// Whether `v` is an active validator.
    pub fn is_active_validator(&self, address: AccountId) -> (b: bool)
        requires
            self.wf(),
        ensures
            b == self.active(address),
    {
        match self.validators.get(address) {
            Some(b) => *b,
            None => false,
        }
    }

    /// The info of `validator`, if registered.
    pub fn get_validator_info(&self, validator: AccountId) -> (r: Option<ValidatorInfo>)
        requires
            self.wf(),
        ensures
            r == (if self.validator_info@.contains_key(validator) { Some(self.validator_info@[validator]) } else { None }),
    {
        match self.validator_info.get(validator) {
            Some(i) => Some(*i),
            None => None,
        }
    }

    /// The proposal with id `proposal_id`, if any.
    pub fn get_proposal(&self, proposal_id: u64) -> (r: Option<&BridgeProposal>)
        requires
            self.wf(),
        ensures
            match r {
                Some(p) => self.proposals@.contains_key(proposal_id) && *p == self.proposals@[proposal_id],
                None => !self.proposals@.contains_key(proposal_id),
            },
    {
        self.proposals.get(proposal_id)
    }

    /// The consensus state (the starting state when none is stored).
    pub fn get_consensus_state(&self) -> (s: ConsensusState)
        ensures
            s == self.state(),
    {
        match self.consensus_state {
            Some(s) => s,
            None => ConsensusState { total_stake: 0, active_validators: 0, byzantine_threshold: 1, last_consensus_round: 0 },
        }
    }

    /// Whether proposal `proposal_id` has as many approvals as it needs.
    pub fn is_consensus_reached(&self, proposal_id: u64) -> (b: bool)
        requires
            self.wf(),
        ensures
            b == (self.proposals@.contains_key(proposal_id)
                && self.proposals@[proposal_id].vote_count >= self.proposals@[proposal_id].required_votes),
    {
        match self.proposals.get(proposal_id) {
            Some(p) => p.vote_count >= p.required_votes,
            None => false,
        }
    }

    /// Whether an active validator is due to be rotated out: it has no info
    /// record, its reputation is below `MIN_ACTIVE_REPUTATION`, or its stake
    /// is below `MIN_VALIDATOR_STAKE`.
    pub open spec fn should_deactivate(&self, v: AccountId) -> bool {
        !self.validator_info@.contains_key(v)
            || self.validator_info@[v].reputation_score < MIN_ACTIVE_REPUTATION
            || stake_of(self.stakes@, v) < MIN_VALIDATOR_STAKE
    }

    /// The validator table after rotation.
    pub open spec fn rotated(&self) -> Seq<(u64, bool)> {
        self.validators.entries().map_values(|e: (u64, bool)|
            (e.0, if e.1 && self.should_deactivate(e.0) { false } else { e.1 }))
    }

    /// Deactivate every active validator that `should_deactivate`, count the
    /// rotation epoch, recompute the consensus state at `now`, and return how
    /// many were deactivated.
    pub fn rotate_validators(&mut self, now: u64) -> (r: Result<u32, BridgeError>)
        requires
            old(self).wf(),
            old(self).rotation_epoch < u64::MAX,
        ensures
            final(self).wf(),
            final(self).validators.entries() == old(self).rotated(),
            r == Ok::<u32, BridgeError>(count_where(old(self).validators.entries().map_values(|e: (u64, bool)| (e.0, e.1 && old(self).should_deactivate(e.0))), |b: bool| b) as u32),
            final(self).rotation_epoch == old(self).rotation_epoch + 1,
            final(self).consensus_state == Some(consensus_for(old(self).rotated(), old(self).stakes@, now)),
            final(self).validator_info == old(self).validator_info,
            final(self).stakes == old(self).stakes,
            final(self).proposals == old(self).proposals,
    {
        let ghost s = self.validators.entries();
        let ghost flagged = s.map_values(|e: (u64, bool)| (e.0, e.1 && old(self).should_deactivate(e.0)));
        let ghost is_set = |b: bool| b;
        let mut rotated_out: u32 = 0;
        let mut i: usize = 0;
        while i < self.validators.len()
            invariant
                self.wf(),
                self.validators.entries().len() == s.len(),
                i <= s.len(),
                is_set == (|b: bool| b),
                flagged == s.map_values(|e: (u64, bool)| (e.0, e.1 && old(self).should_deactivate(e.0))),
                forall|j: int| 0 <= j < i ==> #[trigger] self.validators.entries()[j] == old(self).rotated()[j],
                forall|j: int| i <= j < s.len() ==> #[trigger] self.validators.entries()[j] == s[j],
                self.validator_info == old(self).validator_info,
                self.stakes == old(self).stakes,
                self.proposals == old(self).proposals,
                self.rotation_epoch == old(self).rotation_epoch,
                s == old(self).validators.entries(),
                rotated_out == count_where(flagged.take(i as int), is_set),
                rotated_out <= i,
            decreases s.len() - i,
        {
            proof { lemma_count_where_step(flagged, i as int, is_set); }
            let addr = self.validators.key_at(i);
            let is_active = *self.validators.value_at(i);
            if is_active {
                let deactivate = match self.validator_info.get(addr) {
                    Some(info) => {
                        let stake = match self.stakes.get(addr) {
                            Some(st) => *st,
                            None => 0,
                        };
                        info.reputation_score < MIN_ACTIVE_REPUTATION || stake < MIN_VALIDATOR_STAKE
                    },
                    None => true,
                };
                if deactivate {
                    self.validators.set_value_at(i, false);
                    rotated_out = rotated_out + 1;
                }
            }
            i = i + 1;
        }
        proof {
            assert(self.validators.entries() =~= old(self).rotated());
            assert(flagged.take(i as int) =~= flagged);
        }
        self.rotation_epoch = self.rotation_epoch + 1;
        self.update_consensus_state(now);
        Ok(rotated_out)
    }

    /// Rotate when the last consensus round is a positive multiple of
    /// `ROTATION_EPOCH_ROUNDS`; report whether a rotation happened.
    pub fn maybe_rotate(&mut self, now: u64) -> (r: Result<bool, BridgeError>)
        requires
            old(self).wf(),
            old(self).state().last_consensus_round > 0 && old(self).state().last_consensus_round % ROTATION_EPOCH_ROUNDS == 0
                ==> old(self).rotation_epoch < u64::MAX,
        ensures
            final(self).wf(),
            ({
                let round = old(self).state().last_consensus_round;
                if round > 0 && round % ROTATION_EPOCH_ROUNDS == 0 {
                    r == Ok::<bool, BridgeError>(true)
                        && final(self).validators.entries() == old(self).rotated()
                        && final(self).rotation_epoch == old(self).rotation_epoch + 1
                } else {
                    r == Ok::<bool, BridgeError>(false) && *final(self) == *old(self)
                }
            }),
    {
        let state = self.get_consensus_state();
        if state.last_consensus_round > 0 && state.last_consensus_round % ROTATION_EPOCH_ROUNDS == 0 {
            let _ = self.rotate_validators(now);
            return Ok(true);
        }
        Ok(false)
    }
}

/// Inserting under a key adds at most one entry.
proof fn lemma_insert_len(before: IdMap<bool>, after: IdMap<bool>, k: u64, v: bool)
    requires
        before.wf(),
        after.wf(),
        after@ == before@.insert(k, v),
    ensures
        after.entries().len() <= before.entries().len() + 1,
{
    crate::id_map::lemma_entries_len(after);
    crate::id_map::lemma_entries_len(before);
    assert(after@.dom() =~= before@.dom().insert(k));
}

/// Byzantine quorums: with `n >= 1` active validators the threshold `t`
/// never exceeds `n`, and `3t > 2n`; so any two quorums share more than `n/3`
/// validators, and `f` faulty validators out of `3f + 1` can neither reach a
/// quorum alone nor block one.
pub proof fn law_byzantine_quorums_intersect(n: u32, f: u32)
    requires
        1 <= n < 0x8000_0000,
    ensures
        byzantine_threshold(n) <= n,
        3 * byzantine_threshold(n) > 2 * n,
        3 * (2 * byzantine_threshold(n) - n) > n,
        n == 3 * f + 1 ==> byzantine_threshold(n) == 2 * f + 1,
{
}

/// One vote per validator per proposal: a validator that has voted is
/// refused when it votes again.
pub proof fn law_one_vote_per_validator(c: BFTConsensus, validator: AccountId, proposal_id: u64, now: u64, sequence: u32)
    requires
        c.proposals@.contains_key(proposal_id),
        c.proposals@[proposal_id].votes@.contains_key(validator),
    ensures
        c.vote_error(validator, proposal_id, now, sequence) is Some,
{
}

} // verus!
