use teachlink::arbitration::{ArbitrationManager, ArbitratorProfile};
use teachlink::errors::EscrowError;
use teachlink::escrow::{
    DisputeOutcome, EscrowApprovalKey, EscrowApprovalRepository, EscrowManager, EscrowParameters, EscrowSigner,
    EscrowStatus,
};
use teachlink::escrow_analytics::{EscrowAnalyticsManager, EscrowMetrics};
use teachlink::types::{Holder, Transfer};

const CONTRACT: u64 = 999;

fn make_profile(address: u64, reputation_score: u32) -> ArbitratorProfile {
    ArbitratorProfile {
        address,
        name: b"Arbiter One".to_vec(),
        specialization: vec![b"General".to_vec()],
        reputation_score,
        total_resolved: 0,
        dispute_types_handled: vec![b"Payment".to_vec()],
        is_active: true,
    }
}

fn params(amount: i128) -> EscrowParameters {
    EscrowParameters {
        depositor: 1,
        beneficiary: 2,
        token: 50,
        amount,
        signers: vec![EscrowSigner { address: 10, weight: 1 }, EscrowSigner { address: 11, weight: 2 }],
        threshold: 2,
        release_time: None,
        refund_time: Some(1_000),
        arbitrator: CONTRACT,
    }
}

#[test]
fn update_reputation_increases_on_success() {
    let mut a = ArbitrationManager::new();
    a.register_arbitrator(make_profile(5, 500)).unwrap();
    a.update_reputation(5, true).unwrap();
    let updated = a.get_arbitrator(5).unwrap();
    assert_eq!(updated.reputation_score, 510);
    assert_eq!(updated.total_resolved, 1);
}

#[test]
fn update_reputation_decreases_on_failure() {
    let mut a = ArbitrationManager::new();
    a.register_arbitrator(make_profile(5, 500)).unwrap();
    a.update_reputation(5, false).unwrap();
    let updated = a.get_arbitrator(5).unwrap();
    assert_eq!(updated.reputation_score, 480);
    assert_eq!(updated.total_resolved, 1);
}

#[test]
fn update_reputation_respects_upper_boundary() {
    let mut a = ArbitrationManager::new();
    a.register_arbitrator(make_profile(5, 995)).unwrap();
    a.update_reputation(5, true).unwrap();
    let updated = a.get_arbitrator(5).unwrap();
    assert_eq!(updated.reputation_score, 1000);
    assert_eq!(updated.total_resolved, 1);
}

#[test]
fn update_reputation_respects_lower_boundary() {
    let mut a = ArbitrationManager::new();
    a.register_arbitrator(make_profile(5, 15)).unwrap();
    a.update_reputation(5, false).unwrap();
    let updated = a.get_arbitrator(5).unwrap();
    assert_eq!(updated.reputation_score, 0);
    assert_eq!(updated.total_resolved, 1);
}

#[test]
fn update_reputation_is_noop_for_unregistered_arbitrator() {
    let mut a = ArbitrationManager::new();
    assert_eq!(a.update_reputation(6, true), Ok(()));
    assert!(a.get_arbitrator(6).is_none());
}

#[test]
fn update_profile_checks_identity() {
    let mut a = ArbitrationManager::new();
    assert_eq!(a.update_profile(5, make_profile(5, 1)), Err(EscrowError::SignerNotAuthorized));
    a.register_arbitrator(make_profile(5, 1)).unwrap();
    assert_eq!(a.update_profile(5, make_profile(6, 1)), Err(EscrowError::SignerNotAuthorized));
    a.update_profile(5, make_profile(5, 77)).unwrap();
    assert_eq!(a.get_arbitrator(5).unwrap().reputation_score, 77);
}

#[test]
fn pick_arbitrator_takes_first_active() {
    let mut a = ArbitrationManager::new();
    assert_eq!(a.pick_arbitrator(), Err(EscrowError::ArbitratorNotAuthorized));
    let mut inactive = make_profile(3, 1);
    inactive.is_active = false;
    a.register_arbitrator(inactive).unwrap();
    a.register_arbitrator(make_profile(8, 1)).unwrap();
    a.register_arbitrator(make_profile(5, 1)).unwrap();
    assert_eq!(a.pick_arbitrator(), Ok(5));
}

#[test]
fn test_escrow_approval_repository() {
    let mut approval_repo = EscrowApprovalRepository::new();
    let key = EscrowApprovalKey { escrow_id: 1, signer: 42 };
    assert!(!approval_repo.has_approved(&key));
    approval_repo.approve(&key).unwrap();
    assert!(approval_repo.has_approved(&key));
    assert!(!approval_repo.has_approved(&EscrowApprovalKey { escrow_id: 2, signer: 42 }));
}

#[test]
fn escrow_overflow_triggers_resets_and_can_be_cleared() {
    let mut a = EscrowAnalyticsManager::new();
    a.metrics = EscrowMetrics {
        total_escrows: u64::MAX,
        total_volume: i128::MAX,
        total_disputes: u64::MAX,
        total_resolved: u64::MAX,
        average_resolution_time: 123,
        resets: 0,
    };
    a.update_creation(1);
    let m = a.get_metrics();
    assert_eq!(m.total_escrows, 0);
    assert_eq!(m.total_volume, 0);
    assert!(m.resets >= 1);
    a.reset_metrics();
    let m2 = a.get_metrics();
    assert_eq!(m2.total_escrows, 0);
    assert_eq!(m2.total_volume, 0);
    assert_eq!(m2.resets, 0);
}

#[test]
fn resolution_average_is_running_mean() {
    let mut a = EscrowAnalyticsManager::new();
    a.update_resolution(100);
    a.update_resolution(300);
    a.update_resolution(50);
    let m = a.get_metrics();
    assert_eq!(m.total_resolved, 3);
    assert_eq!(m.average_resolution_time, 150);
}

#[test]
fn create_escrow_validates_parameters() {
    let mut m = EscrowManager::new(CONTRACT);
    assert_eq!(m.create_escrow(params(0), 0), Err(EscrowError::AmountMustBePositive));
    let mut p = params(10);
    p.beneficiary = 1;
    assert_eq!(m.create_escrow(p, 0), Err(EscrowError::DepositorCannotBeBeneficiary));
    let mut p = params(10);
    p.signers = vec![];
    assert_eq!(m.create_escrow(p, 0), Err(EscrowError::AtLeastOneSignerRequired));
    let mut p = params(10);
    p.signers = vec![EscrowSigner { address: 10, weight: 1 }, EscrowSigner { address: 10, weight: 1 }];
    assert_eq!(m.create_escrow(p, 0), Err(EscrowError::DuplicateSigner));
    let mut p = params(10);
    p.threshold = 4;
    assert_eq!(m.create_escrow(p, 0), Err(EscrowError::InvalidSignerThreshold));
    let mut p = params(10);
    p.release_time = Some(1_000);
    assert_eq!(m.create_escrow(p, 0), Err(EscrowError::RefundTimeMustBeAfterReleaseTime));
    assert_eq!(m.get_escrow_count(), 0);
}

#[test]
fn approvals_reach_threshold_then_release() {
    let mut m = EscrowManager::new(CONTRACT);
    let (id, deposit) = m.create_escrow(params(500), 7).unwrap();
    assert_eq!(id, 1);
    assert_eq!(deposit, Transfer { token: 50, from: Holder::Account(1), to: Holder::Contract, amount: 500 });
    assert_eq!(m.get_metrics().total_escrows, 1);
    assert_eq!(m.get_metrics().total_volume, 500);
    assert_eq!(m.release(id, 2, 10), Err(EscrowError::InsufficientApprovals));
    assert_eq!(m.approve_release(id, 77), Err(EscrowError::SignerNotAuthorized));
    assert_eq!(m.approve_release(id, 10), Ok(1));
    assert_eq!(m.approve_release(id, 10), Err(EscrowError::SignerAlreadyApproved));
    assert!(m.has_approved(id, 10));
    assert!(!m.has_approved(id, 11));
    assert_eq!(m.cancel(id, 1), Err(EscrowError::CannotCancelAfterApprovals));
    assert_eq!(m.approve_release(id, 11), Ok(3));
    assert_eq!(m.release(id, 55, 10), Err(EscrowError::CallerNotAuthorized));
    assert_eq!(
        m.release(id, 2, 10),
        Ok(Transfer { token: 50, from: Holder::Contract, to: Holder::Account(2), amount: 500 })
    );
    assert_eq!(m.get_escrow(id).unwrap().status, EscrowStatus::Released);
    assert_eq!(m.release(id, 2, 10), Err(EscrowError::EscrowNotPending));
    assert_eq!(m.refund(id, 1, 2_000), Err(EscrowError::EscrowNotPending));
    assert_eq!(m.approve_release(9, 10), Err(EscrowError::EscrowNotFound));
}

#[test]
fn refund_and_cancel_rules() {
    let mut m = EscrowManager::new(CONTRACT);
    let (id, _) = m.create_escrow(params(500), 0).unwrap();
    assert_eq!(m.refund(id, 2, 2_000), Err(EscrowError::OnlyDepositorCanRefund));
    assert_eq!(m.refund(id, 1, 999), Err(EscrowError::RefundTimeNotReached));
    assert_eq!(
        m.refund(id, 1, 1_000),
        Ok(Transfer { token: 50, from: Holder::Contract, to: Holder::Account(1), amount: 500 })
    );
    let mut p = params(300);
    p.refund_time = None;
    let (id2, _) = m.create_escrow(p, 0).unwrap();
    assert_eq!(m.refund(id2, 1, 5), Err(EscrowError::RefundNotEnabled));
    assert_eq!(m.cancel(id2, 2), Err(EscrowError::OnlyDepositorCanCancel));
    assert_eq!(
        m.cancel(id2, 1),
        Ok(Transfer { token: 50, from: Holder::Contract, to: Holder::Account(1), amount: 300 })
    );
    assert_eq!(m.get_escrow(id2).unwrap().status, EscrowStatus::Cancelled);
}

#[test]
fn dispute_and_resolution_by_professional_arbitrator() {
    let mut m = EscrowManager::new(CONTRACT);
    let (id, _) = m.create_escrow(params(500), 100).unwrap();
    assert_eq!(m.dispute(id, 10, b"late".to_vec()), Err(EscrowError::OnlyDepositorOrBeneficiaryCanDispute));
    assert_eq!(m.dispute(id, 2, b"late".to_vec()), Err(EscrowError::ArbitratorNotAuthorized));
    m.arbitration.register_arbitrator(make_profile(70, 500)).unwrap();
    m.dispute(id, 2, b"late".to_vec()).unwrap();
    let e = m.get_escrow(id).unwrap();
    assert_eq!(e.status, EscrowStatus::Disputed);
    assert_eq!(e.arbitrator, 70);
    assert_eq!(e.dispute_reason, Some(b"late".to_vec()));
    assert_eq!(m.get_metrics().total_disputes, 1);
    assert_eq!(m.resolve(id, 71, DisputeOutcome::RefundToDepositor, 400), Err(EscrowError::OnlyArbitratorCanResolve));
    assert_eq!(
        m.resolve(id, 70, DisputeOutcome::RefundToDepositor, 400),
        Ok(Transfer { token: 50, from: Holder::Contract, to: Holder::Account(1), amount: 500 })
    );
    assert_eq!(m.get_escrow(id).unwrap().status, EscrowStatus::Refunded);
    assert_eq!(m.arbitration.get_arbitrator(70).unwrap().reputation_score, 510);
    assert_eq!(m.get_metrics().total_resolved, 1);
    assert_eq!(m.get_metrics().average_resolution_time, 300);
    assert_eq!(m.resolve(id, 70, DisputeOutcome::RefundToDepositor, 400), Err(EscrowError::EscrowNotInDispute));
}

#[test]
fn stalled_escrow_is_disputed_automatically() {
    let mut m = EscrowManager::new(CONTRACT);
    let (id, _) = m.create_escrow(params(500), 100).unwrap();
    m.arbitration.register_arbitrator(make_profile(70, 500)).unwrap();
    m.auto_check_dispute(id, 100 + 604_800).unwrap();
    assert_eq!(m.get_escrow(id).unwrap().status, EscrowStatus::Pending);
    m.auto_check_dispute(id, 100 + 604_801).unwrap();
    let e = m.get_escrow(id).unwrap();
    assert_eq!(e.status, EscrowStatus::Disputed);
    assert_eq!(e.arbitrator, 70);
    assert_eq!(e.dispute_reason, Some(b"Automated stall detection".to_vec()));
    assert_eq!(m.auto_check_dispute(5, 0), Err(EscrowError::EscrowNotFound));
}
