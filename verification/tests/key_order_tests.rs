use teachlink::access_control::{AccessControlManager, AccessRole};
use teachlink::analytics::Analytics;
use teachlink::audit::AuditManager;
use teachlink::feature_flags::{FeatureFlagManager, FeatureStatus, RolloutStrategy};
use teachlink::interface_versioning::{ContractSemVer, InterfaceVersioning};
use teachlink::key_order::bytes_less;
use teachlink::storage::{all_storage_keys, detect_key_collisions, find_key_collision};

fn v(major: u32, minor: u32, patch: u32) -> ContractSemVer {
    ContractSemVer::new(major, minor, patch)
}

#[test]
fn byte_order_puts_prefixes_first() {
    assert!(bytes_less(&b"ab".to_vec(), &b"abc".to_vec()));
    assert!(bytes_less(&b"abc".to_vec(), &b"abd".to_vec()));
    assert!(!bytes_less(&b"abd".to_vec(), &b"abc".to_vec()));
    assert!(!bytes_less(&b"abc".to_vec(), &b"abc".to_vec()));
    assert!(bytes_less(&b"".to_vec(), &b"a".to_vec()));
    assert!(bytes_less(&b"Z".to_vec(), &b"_".to_vec()));
}

#[test]
fn bridge_statistics_are_listed_by_key() {
    let mut a = Analytics::new();
    a.set_bridge_stat(&b"volume".to_vec(), 5);
    a.set_bridge_stat(&b"fees".to_vec(), 2);
    a.set_bridge_stat(&b"txs".to_vec(), 9);
    a.set_bridge_stat(&b"fees".to_vec(), 3);
    let keys: Vec<Vec<u8>> = a.get_bridge_statistics().entries.iter().map(|e| e.key.clone()).collect();
    assert_eq!(keys, vec![b"fees".to_vec(), b"txs".to_vec(), b"volume".to_vec()]);
    let values: Vec<i128> = a.get_bridge_statistics().entries.iter().map(|e| e.value).collect();
    assert_eq!(values, vec![3, 9, 5]);
}

#[test]
fn deprecations_and_migration_paths_are_listed_by_key() {
    let mut iv = InterfaceVersioning::new(Some(1));
    iv.deprecate_function(1, b"withdraw".to_vec(), v(1, 1, 0), v(2, 0, 0), None, vec![]).unwrap();
    iv.deprecate_function(1, b"deposit".to_vec(), v(1, 1, 0), v(2, 0, 0), None, vec![]).unwrap();
    iv.deprecate_function(1, b"claim".to_vec(), v(1, 1, 0), v(2, 0, 0), None, vec![]).unwrap();
    let names: Vec<Vec<u8>> = iv.get_all_deprecations().iter().map(|d| d.function_name.clone()).collect();
    assert_eq!(names, vec![b"claim".to_vec(), b"deposit".to_vec(), b"withdraw".to_vec()]);
    assert_eq!(iv.get_deprecation_policy().1.len(), 3);

    iv.register_migration_path(1, v(2, 0, 0), v(3, 0, 0), vec![], vec![], vec![]).unwrap();
    iv.register_migration_path(1, v(1, 0, 0), v(2, 0, 0), vec![], vec![], vec![]).unwrap();
    iv.register_migration_path(1, v(1, 0, 0), v(1, 5, 0), vec![], vec![], vec![]).unwrap();
    let froms: Vec<(u32, u32)> = iv.get_all_migration_paths().iter().map(|p| (p.from_version.major, p.to_version.major)).collect();
    assert_eq!(froms, vec![(1, 1), (1, 2), (2, 3)]);
}

#[test]
fn feature_flags_are_listed_by_name() {
    let mut access = AccessControlManager::new(Some(1));
    let mut audit = AuditManager::new();
    access.grant_role(1, 2, AccessRole::FeatureManager, &mut audit, 0).unwrap();
    let mut f = FeatureFlagManager::new();
    for name in [b"zeta".to_vec(), b"alpha".to_vec(), b"mid".to_vec()] {
        f.set_feature_flag(&access, 2, name, FeatureStatus::Enabled, RolloutStrategy::Global, 0, 1).unwrap();
    }
    let names: Vec<Vec<u8>> = f.get_all_flags().iter().map(|x| x.name.clone()).collect();
    assert_eq!(names, vec![b"alpha".to_vec(), b"mid".to_vec(), b"zeta".to_vec()]);
}

#[test]
fn storage_keys_do_not_collide() {
    let keys = all_storage_keys();
    assert_eq!(keys.len(), 25);
    assert_eq!(keys[0], b"teachlnk".to_vec());
    assert_eq!(keys[12], b"tl_propct".to_vec());
    assert_eq!(detect_key_collisions(), Ok(()));
    let dup = vec![b"a".to_vec(), b"b".to_vec(), b"c".to_vec(), b"b".to_vec(), b"a".to_vec()];
    assert_eq!(find_key_collision(&dup), Err(b"a".to_vec()));
    assert_eq!(find_key_collision(&vec![b"a".to_vec(), b"b".to_vec()]), Ok(()));
}
