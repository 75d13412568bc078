use teachlink::bft_consensus::{BFTConsensus, ProposalStatus, MIN_VALIDATOR_STAKE, PROPOSAL_TIMEOUT};
use teachlink::errors::BridgeError;
use teachlink::types::CrossChainMessage;

fn msg() -> CrossChainMessage {
    CrossChainMessage {
        source_chain: 1,
        source_tx_hash: vec![0x11; 32],
        nonce: 1,
        token: 5,
        amount: 1,
        recipient: 6,
        destination_chain: 2,
    }
}

#[test]
fn byzantine_threshold_values() {
    assert_eq!(BFTConsensus::byzantine_threshold_for(0), 1);
    assert_eq!(BFTConsensus::byzantine_threshold_for(1), 1);
    assert_eq!(BFTConsensus::byzantine_threshold_for(4), 3);
    assert_eq!(BFTConsensus::byzantine_threshold_for(10), 7);
}

#[test]
fn registration_updates_consensus_state() {
    let mut c = BFTConsensus::new();
    assert_eq!(c.register_validator(1, MIN_VALIDATOR_STAKE - 1, 10, 1), Err(BridgeError::InsufficientStake));
    c.register_validator(1, MIN_VALIDATOR_STAKE, 10, 1).unwrap();
    assert_eq!(c.register_validator(1, MIN_VALIDATOR_STAKE, 10, 1), Err(BridgeError::AlreadyInitialized));
    c.register_validator(2, MIN_VALIDATOR_STAKE * 2, 10, 1).unwrap();
    let s = c.get_consensus_state();
    assert_eq!(s.active_validators, 2);
    assert_eq!(s.total_stake, MIN_VALIDATOR_STAKE * 3);
    assert_eq!(s.byzantine_threshold, 2);
    assert_eq!(c.unregister_validator(2, 11), Ok(MIN_VALIDATOR_STAKE * 2));
    assert_eq!(c.unregister_validator(2, 11), Err(BridgeError::InvalidValidatorSignature));
    assert_eq!(c.get_consensus_state().active_validators, 1);
}

#[test]
fn proposal_expiry_uses_sequence_fallback() {
    let mut c = BFTConsensus::new();
    c.register_validator(1, MIN_VALIDATOR_STAKE, 1_000, 1).unwrap();
    let ev = c.create_proposal(msg(), 1_000, 1).unwrap();
    let deadline = 1 + (PROPOSAL_TIMEOUT / 5) as u32;
    let r = c.vote_on_proposal(1, ev.proposal_id, true, 1_000, deadline + 1);
    assert_eq!(r, Err(BridgeError::ProposalExpired));
    assert_eq!(c.get_proposal(ev.proposal_id).unwrap().status, ProposalStatus::Expired);
}

#[test]
fn rotate_validators_removes_low_reputation() {
    let mut c = BFTConsensus::new();
    c.register_validator(1, MIN_VALIDATOR_STAKE, 1_000, 1).unwrap();
    let mut info = c.validator_info.remove(1).unwrap();
    info.reputation_score = 10;
    c.validator_info.insert(1, info);
    assert_eq!(c.rotate_validators(1_000), Ok(1));
    assert!(!c.is_active_validator(1));
}

#[test]
fn voting_boosts_reputation() {
    let mut c = BFTConsensus::new();
    c.register_validator(1, MIN_VALIDATOR_STAKE, 1_000, 1).unwrap();
    let mut info = c.validator_info.remove(1).unwrap();
    info.reputation_score = 90;
    c.validator_info.insert(1, info);
    let ev = c.create_proposal(msg(), 1_000, 1).unwrap();
    let executed = c.vote_on_proposal(1, ev.proposal_id, true, 1_000, 1).unwrap();
    assert!(executed.is_some());
    let after = c.get_validator_info(1).unwrap();
    assert!(after.reputation_score > 90, "reputation should increase after voting");
    assert!(c.is_consensus_reached(ev.proposal_id));
    assert_eq!(c.get_proposal(ev.proposal_id).unwrap().status, ProposalStatus::Approved);
    assert_eq!(c.vote_on_proposal(1, ev.proposal_id, true, 1_000, 1), Err(BridgeError::ProposalExpired));
}

#[test]
fn a_validator_votes_once() {
    let mut c = BFTConsensus::new();
    for v in 1..=4u64 {
        c.register_validator(v, MIN_VALIDATOR_STAKE, 1_000, 1).unwrap();
    }
    let ev = c.create_proposal(msg(), 1_000, 1).unwrap();
    assert_eq!(ev.required_votes, 3);
    assert_eq!(c.vote_on_proposal(1, ev.proposal_id, true, 1_000, 1), Ok(None));
    assert_eq!(c.vote_on_proposal(1, ev.proposal_id, true, 1_000, 1), Err(BridgeError::ProposalAlreadyVoted));
    assert_eq!(c.vote_on_proposal(9, ev.proposal_id, true, 1_000, 1), Err(BridgeError::ValidatorNotActive));
    assert_eq!(c.vote_on_proposal(2, ev.proposal_id, false, 1_000, 1), Ok(None));
    assert_eq!(c.vote_on_proposal(3, ev.proposal_id, true, 1_000, 1), Ok(None));
    assert!(c.vote_on_proposal(4, ev.proposal_id, true, 1_000, 1).unwrap().is_some());
}
