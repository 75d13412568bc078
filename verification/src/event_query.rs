//! Event categories and queries.
//!
//! Every event the contract publishes has a short type name; each name
//! belongs to at most one category.
use vstd::prelude::*;
use crate::types::AccountId;

verus! {

/// Event categories for filtering.
#[derive(Copy, Clone, Debug, PartialEq, Eq, Structural)]
pub enum EventCategory {
    Bridge,
    Consensus,
    Slashing,
    Emergency,
    Escrow,
    Insurance,
    Reputation,
    Tokenization,
    Rewards,
    MultiChain,
    MessagePassing,
    CreditScore,
    Analytics,
    Backup,
    AtomicSwap,
    Audit,
    Performance,
}

/// The event types that categories know of.
#[derive(Copy, Clone, Debug, PartialEq, Eq, Structural)]
pub enum EventType {
    BridgeInitiated,
    BridgeCompleted,
    BridgeCancelled,
    BridgeFailed,
    BridgeRetry,
    Deposit,
    Release,
    ValidatorAdded,
    ValidatorRemoved,
    ChainSupported,
    ChainUnsupported,
    BridgeFeeUpdated,
    FeeRecipientUpdated,
    MinValidatorsUpdated,
    ProposalCreated,
    ProposalVoted,
    ProposalExecuted,
    ValidatorRegistered,
    ValidatorUnregistered,
    ValidatorSlashed,
    ValidatorRewarded,
    StakeDeposited,
    StakeWithdrawn,
    RewardPoolFunded,
    BridgePaused,
    BridgeResumed,
    CircuitBreakerTriggered,
    CircuitBreakerInit,
    CircuitBreakerReset,
    CircuitBreakerLimitsUpdated,
    EscrowCreated,
    EscrowApproved,
    EscrowReleased,
    EscrowRefunded,
    EscrowCancelled,
    EscrowDisputed,
    EscrowResolved,
    InsurancePoolInit,
    InsurancePoolFunded,
    InsurancePremiumPaid,
    InsuranceClaimProcessed,
    ParticipationUpdated,
    CourseProgressUpdated,
    ContributionRated,
    ContentMinted,
    OwnershipTransferred,
    ProvenanceRecorded,
    MetadataUpdated,
    TransferabilityUpdated,
    RewardIssued,
    RewardClaimed,
    RewardPoolFundedExternal,
}

/// The category an event type belongs to.
pub open spec fn category_of(t: EventType) -> EventCategory {
    match t {
        EventType::BridgeInitiated => EventCategory::Bridge,
        EventType::BridgeCompleted => EventCategory::Bridge,
        EventType::BridgeCancelled => EventCategory::Bridge,
        EventType::BridgeFailed => EventCategory::Bridge,
        EventType::BridgeRetry => EventCategory::Bridge,
        EventType::Deposit => EventCategory::Bridge,
        EventType::Release => EventCategory::Bridge,
        EventType::ValidatorAdded => EventCategory::Bridge,
        EventType::ValidatorRemoved => EventCategory::Bridge,
        EventType::ChainSupported => EventCategory::Bridge,
        EventType::ChainUnsupported => EventCategory::Bridge,
        EventType::BridgeFeeUpdated => EventCategory::Bridge,
        EventType::FeeRecipientUpdated => EventCategory::Bridge,
        EventType::MinValidatorsUpdated => EventCategory::Bridge,
        EventType::ProposalCreated => EventCategory::Consensus,
        EventType::ProposalVoted => EventCategory::Consensus,
        EventType::ProposalExecuted => EventCategory::Consensus,
        EventType::ValidatorRegistered => EventCategory::Consensus,
        EventType::ValidatorUnregistered => EventCategory::Consensus,
        EventType::ValidatorSlashed => EventCategory::Slashing,
        EventType::ValidatorRewarded => EventCategory::Slashing,
        EventType::StakeDeposited => EventCategory::Slashing,
        EventType::StakeWithdrawn => EventCategory::Slashing,
        EventType::RewardPoolFunded => EventCategory::Slashing,
        EventType::BridgePaused => EventCategory::Emergency,
        EventType::BridgeResumed => EventCategory::Emergency,
        EventType::CircuitBreakerTriggered => EventCategory::Emergency,
        EventType::CircuitBreakerInit => EventCategory::Emergency,
        EventType::CircuitBreakerReset => EventCategory::Emergency,
        EventType::CircuitBreakerLimitsUpdated => EventCategory::Emergency,
        EventType::EscrowCreated => EventCategory::Escrow,
        EventType::EscrowApproved => EventCategory::Escrow,
        EventType::EscrowReleased => EventCategory::Escrow,
        EventType::EscrowRefunded => EventCategory::Escrow,
        EventType::EscrowCancelled => EventCategory::Escrow,
        EventType::EscrowDisputed => EventCategory::Escrow,
        EventType::EscrowResolved => EventCategory::Escrow,
        EventType::InsurancePoolInit => EventCategory::Insurance,
        EventType::InsurancePoolFunded => EventCategory::Insurance,
        EventType::InsurancePremiumPaid => EventCategory::Insurance,
        EventType::InsuranceClaimProcessed => EventCategory::Insurance,
        EventType::ParticipationUpdated => EventCategory::Reputation,
        EventType::CourseProgressUpdated => EventCategory::Reputation,
        EventType::ContributionRated => EventCategory::Reputation,
        EventType::ContentMinted => EventCategory::Tokenization,
        EventType::OwnershipTransferred => EventCategory::Tokenization,
        EventType::ProvenanceRecorded => EventCategory::Tokenization,
        EventType::MetadataUpdated => EventCategory::Tokenization,
        EventType::TransferabilityUpdated => EventCategory::Tokenization,
        EventType::RewardIssued => EventCategory::Rewards,
        EventType::RewardClaimed => EventCategory::Rewards,
        EventType::RewardPoolFundedExternal => EventCategory::Rewards,
    }
}

/// The short name under which an event of type `t` is published.
pub open spec fn event_name(t: EventType) -> Seq<char> {
    match t {
        EventType::BridgeInitiated => "b_init"@,
        EventType::BridgeCompleted => "b_comp"@,
        EventType::BridgeCancelled => "b_can"@,
        EventType::BridgeFailed => "b_fail"@,
        EventType::BridgeRetry => "b_retry"@,
        EventType::Deposit => "deposit"@,
        EventType::Release => "release"@,
        EventType::ValidatorAdded => "v_add"@,
        EventType::ValidatorRemoved => "v_rem"@,
        EventType::ChainSupported => "c_sup"@,
        EventType::ChainUnsupported => "c_uns"@,
        EventType::BridgeFeeUpdated => "fee_upd"@,
        EventType::FeeRecipientUpdated => "f_rec_u"@,
        EventType::MinValidatorsUpdated => "m_val_u"@,
        EventType::ProposalCreated => "p_creat"@,
        EventType::ProposalVoted => "p_vote"@,
        EventType::ProposalExecuted => "p_exec"@,
        EventType::ValidatorRegistered => "v_reg"@,
        EventType::ValidatorUnregistered => "v_unrg"@,
        EventType::ValidatorSlashed => "v_slash"@,
        EventType::ValidatorRewarded => "v_rew"@,
        EventType::StakeDeposited => "s_dep"@,
        EventType::StakeWithdrawn => "s_wit"@,
        EventType::RewardPoolFunded => "r_pool"@,
        EventType::BridgePaused => "pause"@,
        EventType::BridgeResumed => "resume"@,
        EventType::CircuitBreakerTriggered => "cb_trig"@,
        EventType::CircuitBreakerInit => "cb_init"@,
        EventType::CircuitBreakerReset => "cb_rst"@,
        EventType::CircuitBreakerLimitsUpdated => "cb_l_u"@,
        EventType::EscrowCreated => "e_creat"@,
        EventType::EscrowApproved => "e_apr"@,
        EventType::EscrowReleased => "e_rel"@,
        EventType::EscrowRefunded => "e_ref"@,
        EventType::EscrowCancelled => "e_can"@,
        EventType::EscrowDisputed => "e_dis"@,
        EventType::EscrowResolved => "e_res"@,
        EventType::InsurancePoolInit => "i_init"@,
        EventType::InsurancePoolFunded => "i_fund"@,
        EventType::InsurancePremiumPaid => "i_prem"@,
        EventType::InsuranceClaimProcessed => "i_clm"@,
        EventType::ParticipationUpdated => "p_upd"@,
        EventType::CourseProgressUpdated => "c_upd"@,
        EventType::ContributionRated => "c_rate"@,
        EventType::ContentMinted => "mint"@,
        EventType::OwnershipTransferred => "trans"@,
        EventType::ProvenanceRecorded => "proven"@,
        EventType::MetadataUpdated => "m_upd"@,
        EventType::TransferabilityUpdated => "t_upd"@,
        EventType::RewardIssued => "r_iss"@,
        EventType::RewardClaimed => "r_clm"@,
        EventType::RewardPoolFundedExternal => "r_p_ext"@,
    }
}

impl EventType {
    /// The short name under which the event is published.
    pub fn name(&self) -> (n: &'static str)
        ensures
            n@ == event_name(*self),
    {
        match self {
            EventType::BridgeInitiated => "b_init",
            EventType::BridgeCompleted => "b_comp",
            EventType::BridgeCancelled => "b_can",
            EventType::BridgeFailed => "b_fail",
            EventType::BridgeRetry => "b_retry",
            EventType::Deposit => "deposit",
            EventType::Release => "release",
            EventType::ValidatorAdded => "v_add",
            EventType::ValidatorRemoved => "v_rem",
            EventType::ChainSupported => "c_sup",
            EventType::ChainUnsupported => "c_uns",
            EventType::BridgeFeeUpdated => "fee_upd",
            EventType::FeeRecipientUpdated => "f_rec_u",
            EventType::MinValidatorsUpdated => "m_val_u",
            EventType::ProposalCreated => "p_creat",
            EventType::ProposalVoted => "p_vote",
            EventType::ProposalExecuted => "p_exec",
            EventType::ValidatorRegistered => "v_reg",
            EventType::ValidatorUnregistered => "v_unrg",
            EventType::ValidatorSlashed => "v_slash",
            EventType::ValidatorRewarded => "v_rew",
            EventType::StakeDeposited => "s_dep",
            EventType::StakeWithdrawn => "s_wit",
            EventType::RewardPoolFunded => "r_pool",
            EventType::BridgePaused => "pause",
            EventType::BridgeResumed => "resume",
            EventType::CircuitBreakerTriggered => "cb_trig",
            EventType::CircuitBreakerInit => "cb_init",
            EventType::CircuitBreakerReset => "cb_rst",
            EventType::CircuitBreakerLimitsUpdated => "cb_l_u",
            EventType::EscrowCreated => "e_creat",
            EventType::EscrowApproved => "e_apr",
            EventType::EscrowReleased => "e_rel",
            EventType::EscrowRefunded => "e_ref",
            EventType::EscrowCancelled => "e_can",
            EventType::EscrowDisputed => "e_dis",
            EventType::EscrowResolved => "e_res",
            EventType::InsurancePoolInit => "i_init",
            EventType::InsurancePoolFunded => "i_fund",
            EventType::InsurancePremiumPaid => "i_prem",
            EventType::InsuranceClaimProcessed => "i_clm",
            EventType::ParticipationUpdated => "p_upd",
            EventType::CourseProgressUpdated => "c_upd",
            EventType::ContributionRated => "c_rate",
            EventType::ContentMinted => "mint",
            EventType::OwnershipTransferred => "trans",
            EventType::ProvenanceRecorded => "proven",
            EventType::MetadataUpdated => "m_upd",
            EventType::TransferabilityUpdated => "t_upd",
            EventType::RewardIssued => "r_iss",
            EventType::RewardClaimed => "r_clm",
            EventType::RewardPoolFundedExternal => "r_p_ext",
        }
    }
}

/// Whether `event_type` belongs to `category`.  Only the bridge, consensus,
/// slashing, emergency, escrow, insurance, reputation, tokenization and
/// rewards categories list event types; the others hold none.
pub fn is_event_in_category(event_type: &EventType, category: &EventCategory) -> (b: bool)
    ensures
        b == (category_of(*event_type) == *category),
{
    match category {
        EventCategory::Bridge => match event_type {
            EventType::BridgeInitiated
            | EventType::BridgeCompleted
            | EventType::BridgeCancelled
            | EventType::BridgeFailed
            | EventType::BridgeRetry
            | EventType::Deposit
            | EventType::Release
            | EventType::ValidatorAdded
            | EventType::ValidatorRemoved
            | EventType::ChainSupported
            | EventType::ChainUnsupported
            | EventType::BridgeFeeUpdated
            | EventType::FeeRecipientUpdated
            | EventType::MinValidatorsUpdated => true,
            _ => false,
        },
        EventCategory::Consensus => match event_type {
            EventType::ProposalCreated
            | EventType::ProposalVoted
            | EventType::ProposalExecuted
            | EventType::ValidatorRegistered
            | EventType::ValidatorUnregistered => true,
            _ => false,
        },
        EventCategory::Slashing => match event_type {
            EventType::ValidatorSlashed
            | EventType::ValidatorRewarded
            | EventType::StakeDeposited
            | EventType::StakeWithdrawn
            | EventType::RewardPoolFunded => true,
            _ => false,
        },
        EventCategory::Emergency => match event_type {
            EventType::BridgePaused
            | EventType::BridgeResumed
            | EventType::CircuitBreakerTriggered
            | EventType::CircuitBreakerInit
            | EventType::CircuitBreakerReset
            | EventType::CircuitBreakerLimitsUpdated => true,
            _ => false,
        },
        EventCategory::Escrow => match event_type {
            EventType::EscrowCreated
            | EventType::EscrowApproved
            | EventType::EscrowReleased
            | EventType::EscrowRefunded
            | EventType::EscrowCancelled
            | EventType::EscrowDisputed
            | EventType::EscrowResolved => true,
            _ => false,
        },
        EventCategory::Insurance => match event_type {
            EventType::InsurancePoolInit
            | EventType::InsurancePoolFunded
            | EventType::InsurancePremiumPaid
            | EventType::InsuranceClaimProcessed => true,
            _ => false,
        },
        EventCategory::Reputation => match event_type {
            EventType::ParticipationUpdated
            | EventType::CourseProgressUpdated
            | EventType::ContributionRated => true,
            _ => false,
        },
        EventCategory::Tokenization => match event_type {
            EventType::ContentMinted
            | EventType::OwnershipTransferred
            | EventType::ProvenanceRecorded
            | EventType::MetadataUpdated
            | EventType::TransferabilityUpdated => true,
            _ => false,
        },
        EventCategory::Rewards => match event_type {
            EventType::RewardIssued
            | EventType::RewardClaimed
            | EventType::RewardPoolFundedExternal => true,
            _ => false,
        },
        _ => false,
    }
}

/// A filter over published events.
#[derive(Copy, Clone, Debug, PartialEq, Eq, Structural)]
pub struct EventQuery {
    pub event_type: Option<EventType>,
    pub address: Option<AccountId>,
    pub from_timestamp: Option<u64>,
    pub to_timestamp: Option<u64>,
}

impl EventQuery {
    /// A query with no filter.
    pub fn new() -> (q: Self)
        ensures
            q == (EventQuery { event_type: None, address: None, from_timestamp: None, to_timestamp: None }),
    {
        EventQuery { event_type: None, address: None, from_timestamp: None, to_timestamp: None }
    }

    /// Filter by event type.
    pub fn with_type(self, event_type: EventType) -> (q: Self)
        ensures
            q == (EventQuery { event_type: Some(event_type), ..self }),
    {
        EventQuery { event_type: Some(event_type), ..self }
    }

    /// Filter by an address named in the event.
    pub fn with_address(self, address: AccountId) -> (q: Self)
        ensures
            q == (EventQuery { address: Some(address), ..self }),
    {
        EventQuery { address: Some(address), ..self }
    }

    /// Keep events from `timestamp` on.
    pub fn from_timestamp(self, timestamp: u64) -> (q: Self)
        ensures
            q == (EventQuery { from_timestamp: Some(timestamp), ..self }),
    {
        EventQuery { from_timestamp: Some(timestamp), ..self }
    }

    /// Keep events up to `timestamp`.
    pub fn to_timestamp(self, timestamp: u64) -> (q: Self)
        ensures
            q == (EventQuery { to_timestamp: Some(timestamp), ..self }),
    {
        EventQuery { to_timestamp: Some(timestamp), ..self }
    }

    /// Run the query.  Published events are not kept where the contract can
    /// read them back, so no event id is ever found.
    pub fn execute(self) -> (ids: Vec<u64>)
        ensures
            ids@.len() == 0,
    {
        Vec::new()
    }
}

/// All events naming `user`.
pub fn get_bridge_events_for_user(user: AccountId) -> (q: EventQuery)
    ensures
        q == (EventQuery { event_type: None, address: Some(user), from_timestamp: None, to_timestamp: None }),
{
    EventQuery::new().with_address(user)
}

/// All escrow events (no escrow field to filter on).
pub fn get_escrow_events(escrow_id: u64) -> (q: EventQuery)
    ensures
        q == (EventQuery { event_type: None, address: None, from_timestamp: None, to_timestamp: None }),
{
    EventQuery::new()
}

/// All events naming `validator`.
pub fn get_validator_events(validator: AccountId) -> (q: EventQuery)
    ensures
        q == (EventQuery { event_type: None, address: Some(validator), from_timestamp: None, to_timestamp: None }),
{
    EventQuery::new().with_address(validator)
}

/// All events between `from` and `to`.
pub fn get_events_in_range(from: u64, to: u64) -> (q: EventQuery)
    ensures
        q == (EventQuery { event_type: None, address: None, from_timestamp: Some(from), to_timestamp: Some(to) }),
{
    EventQuery::new().from_timestamp(from).to_timestamp(to)
}

} // verus!
