use teachlink::access_control::{AccessControlManager, AccessRole};
use teachlink::audit::{AuditManager, OperationType, MAX_AUDIT_RECORDS};
use teachlink::errors::BridgeError;
use teachlink::feature_flags::{FeatureFlagManager, FeatureStatus, RolloutStrategy};

#[test]
fn admin_holds_every_role_and_grants_are_audited() {
    let mut a = AccessControlManager::new(Some(1));
    let mut audit = AuditManager::new();
    assert!(a.has_role(1, AccessRole::ValidatorManager));
    assert!(!a.has_role(2, AccessRole::FeatureManager));
    assert_eq!(a.grant_role(2, 3, AccessRole::FeatureManager, &mut audit, 5), Err(BridgeError::Unauthorized));
    a.grant_role(1, 2, AccessRole::FeatureManager, &mut audit, 5).unwrap();
    assert!(a.has_role(2, AccessRole::FeatureManager));
    assert_eq!(audit.get_audit_count(), 1);
    assert_eq!(audit.get_audit_record(1).unwrap().operation_type, OperationType::RoleGranted);
    // Granting again changes nothing.
    a.grant_role(1, 2, AccessRole::FeatureManager, &mut audit, 6).unwrap();
    assert_eq!(audit.get_audit_count(), 1);
    assert_eq!(a.check_role(2, AccessRole::Admin), Err(BridgeError::Unauthorized));
    a.revoke_role(1, 2, AccessRole::FeatureManager, &mut audit, 7).unwrap();
    assert!(!a.has_role(2, AccessRole::FeatureManager));
    assert_eq!(audit.get_audit_record(2).unwrap().operation_type, OperationType::RoleRevoked);
    a.revoke_role(1, 2, AccessRole::FeatureManager, &mut audit, 8).unwrap();
    assert_eq!(audit.get_audit_count(), 2);
}

#[test]
fn audit_ids_wrap_after_the_maximum() {
    let mut audit = AuditManager::new();
    audit.audit_counter = MAX_AUDIT_RECORDS;
    assert_eq!(audit.create_audit_record(OperationType::EmergencyPause, 4, vec![1], vec![2], 9), Ok(1));
    assert_eq!(audit.get_audit_count(), 1);
}

#[test]
fn audit_queries_and_reports() {
    let mut audit = AuditManager::new();
    audit.log_bridge_operation(true, 10, 258, 1, vec![9], 100).unwrap();
    audit.log_bridge_operation(false, 11, -1, 1, vec![9], 200).unwrap();
    audit.log_bridge_operation(true, 10, 5, 1, vec![9], 300).unwrap();
    audit.log_validator_operation(true, 50, 12, vec![], 250).unwrap();
    audit.log_validator_operation(false, 50, 12, vec![], 260).unwrap();
    audit.log_emergency_operation(true, 13, b"halt".to_vec(), vec![], 400).unwrap();
    let rec = audit.get_audit_record(1).unwrap();
    let mut expected = vec![0u8; 14];
    expected.extend_from_slice(&[1, 2]);
    assert_eq!(rec.details, expected);
    assert_eq!(audit.get_audit_record(2).unwrap().details, vec![0xff; 16]);
    assert_eq!(audit.get_audit_records_by_time(150, 300).len(), 4);
    assert_eq!(audit.get_audit_records_by_type(OperationType::BridgeOut).len(), 2);
    assert_eq!(audit.get_audit_records_by_operator(12).len(), 2);
    assert_eq!(audit.generate_compliance_report(0, 300, 777), Ok(777));
    let rep = audit.get_compliance_report(777).unwrap();
    assert_eq!(rep.total_transactions, 3);
    assert_eq!(rep.unique_users, 2);
    assert_eq!(rep.total_volume, 0);
    assert_eq!(*rep.validator_performance.get(12).unwrap(), 2);
    let recent = audit.get_recent_audit_records(2);
    assert_eq!(recent.iter().map(|r| r.record_id).collect::<Vec<_>>(), vec![5, 6]);
    assert!(audit.get_recent_audit_records(0).is_empty());
    assert_eq!(audit.get_recent_audit_records(100).len(), 6);
    assert_eq!(audit.clear_old_records(250), Ok(2));
    assert!(audit.get_audit_record(1).is_none());
    assert!(audit.get_audit_record(4).is_some());
}

#[test]
fn feature_flags_follow_roles_status_and_kill_switch() {
    let env = soroban_sdk::Env::default();
    let mut access = AccessControlManager::new(Some(1));
    let mut audit = AuditManager::new();
    access.grant_role(1, 2, AccessRole::FeatureManager, &mut audit, 0).unwrap();
    let mut f = FeatureFlagManager::new();
    let name = b"new_ui".to_vec();
    assert_eq!(
        f.set_feature_flag(&access, 3, name.clone(), FeatureStatus::Enabled, RolloutStrategy::Global, 0, 1),
        Err(BridgeError::Unauthorized)
    );
    assert_eq!(
        f.set_feature_flag(&access, 2, name.clone(), FeatureStatus::Enabled, RolloutStrategy::Global, 101, 1),
        Err(BridgeError::InvalidParameter)
    );
    f.set_feature_flag(&access, 2, name.clone(), FeatureStatus::Enabled, RolloutStrategy::Global, 0, 1).unwrap();
    assert!(f.is_feature_enabled(&env, &name, &b"GUSER".to_vec()));
    assert!(!f.is_feature_enabled(&env, &b"missing".to_vec(), &b"GUSER".to_vec()));
    assert_eq!(f.trigger_kill_switch(&access, 2, &b"missing".to_vec(), true, 2), Err(BridgeError::NotFound));
    f.trigger_kill_switch(&access, 1, &name, true, 2).unwrap();
    assert!(!f.is_feature_enabled(&env, &name, &b"GUSER".to_vec()));
    // Updating keeps the kill switch and the creation time.
    f.set_feature_flag(&access, 2, name.clone(), FeatureStatus::Rollout, RolloutStrategy::Global, 100, 3).unwrap();
    let flag = f.get_feature_flag(&name).unwrap();
    assert!(flag.kill_switch_enabled);
    assert_eq!((flag.created_at, flag.updated_at), (1, 3));
    f.trigger_kill_switch(&access, 1, &name, false, 4).unwrap();
    assert!(f.is_feature_enabled(&env, &name, &b"GUSER".to_vec()));
    // Percentage rollouts: 0 % reaches nobody, 100 % everybody, otherwise the hash bucket decides.
    f.set_feature_flag(&access, 2, name.clone(), FeatureStatus::Rollout, RolloutStrategy::PercentageBased, 0, 5).unwrap();
    assert!(!f.is_feature_enabled(&env, &name, &b"GUSER".to_vec()));
    f.set_feature_flag(&access, 2, name.clone(), FeatureStatus::Rollout, RolloutStrategy::ABTest, 100, 5).unwrap();
    assert!(f.is_feature_enabled(&env, &name, &b"GUSER".to_vec()));
    let mut data = b"GUSER".to_vec();
    data.extend_from_slice(&name);
    let bucket = env.crypto().sha256(&soroban_sdk::Bytes::from_slice(&env, &data)).to_array()[0] as u32 % 100;
    f.set_feature_flag(&access, 2, name.clone(), FeatureStatus::Rollout, RolloutStrategy::PercentageBased, bucket + 1, 6).unwrap();
    assert!(f.is_feature_enabled(&env, &name, &b"GUSER".to_vec()));
    f.set_feature_flag(&access, 2, name.clone(), FeatureStatus::Rollout, RolloutStrategy::PercentageBased, bucket, 6).unwrap();
    assert!(!f.is_feature_enabled(&env, &name, &b"GUSER".to_vec()));
}
