use teachlink::errors::BridgeError;
use teachlink::interface_versioning::{ContractSemVer, InterfaceVersioning};

fn v(a: u32, b: u32, c: u32) -> ContractSemVer {
    ContractSemVer::new(a, b, c)
}

#[test]
fn compatibility_requires_same_major_and_supported_range() {
    let mut iv = InterfaceVersioning::new(Some(1));
    iv.initialize();
    assert!(iv.is_interface_compatible(v(1, 0, 0)));
    assert!(!iv.is_interface_compatible(v(2, 0, 0)));
}

#[test]
fn defaults_are_available_before_explicit_initialization() {
    let iv = InterfaceVersioning::new(None);
    assert_eq!(iv.get_interface_version(), v(1, 0, 0));
    assert_eq!(iv.get_minimum_compatible_interface_version(), v(1, 0, 0));
}

#[test]
fn upgrades_must_move_forward_with_a_valid_range() {
    let mut iv = InterfaceVersioning::new(Some(1));
    assert_eq!(iv.set_interface_versions(v(1, 0, 0), v(1, 0, 0)), Err(BridgeError::InvalidInterfaceVersionRange));
    assert_eq!(iv.set_interface_versions(v(1, 2, 0), v(0, 9, 0)), Err(BridgeError::InvalidInterfaceVersionRange));
    assert_eq!(iv.set_interface_versions(v(1, 2, 0), v(1, 3, 0)), Err(BridgeError::InvalidInterfaceVersionRange));
    iv.set_interface_versions(v(1, 2, 0), v(1, 1, 0)).unwrap();
    iv.set_interface_versions(v(1, 2, 1), v(1, 1, 0)).unwrap();
    assert_eq!(iv.get_version_history().clone(), vec![v(1, 0, 0), v(1, 2, 0)]);
    assert!(iv.is_interface_compatible(v(1, 1, 5)));
    assert!(!iv.is_interface_compatible(v(1, 0, 9)));
    assert!(!iv.is_interface_compatible(v(1, 2, 2)));
    assert_eq!(iv.assert_interface_compatible(v(1, 2, 2)), Err(BridgeError::IncompatibleInterfaceVersion));
    assert_eq!(iv.assert_interface_compatible(v(1, 2, 1)), Ok(()));
}

#[test]
fn backward_compatibility_is_same_major_upward() {
    assert!(InterfaceVersioning::is_backward_compatible(&v(1, 0, 0), &v(1, 4, 2)));
    assert!(InterfaceVersioning::is_backward_compatible(&v(1, 4, 2), &v(1, 4, 2)));
    assert!(!InterfaceVersioning::is_backward_compatible(&v(1, 4, 2), &v(1, 4, 1)));
    assert!(!InterfaceVersioning::is_backward_compatible(&v(1, 0, 0), &v(2, 0, 0)));
    assert_eq!(InterfaceVersioning::validate_range(&v(2, 1, 0), &v(2, 0, 0)), Ok(()));
}

#[test]
fn deprecations_and_migrations_are_admin_records() {
    let mut iv = InterfaceVersioning::new(Some(1));
    assert_eq!(
        iv.deprecate_function(2, b"old_fn".to_vec(), v(1, 1, 0), v(2, 0, 0), None, b"r".to_vec()),
        Err(BridgeError::Unauthorized)
    );
    assert_eq!(
        iv.deprecate_function(1, b"old_fn".to_vec(), v(1, 1, 0), v(1, 1, 0), None, b"r".to_vec()),
        Err(BridgeError::InvalidInterfaceVersionRange)
    );
    iv.deprecate_function(1, b"old_fn".to_vec(), v(1, 1, 0), v(2, 0, 0), Some(b"new_fn".to_vec()), b"r".to_vec()).unwrap();
    iv.deprecate_function(1, b"old_fn".to_vec(), v(1, 2, 0), v(2, 0, 0), None, b"r2".to_vec()).unwrap();
    let d = iv.get_deprecation(&b"old_fn".to_vec()).unwrap();
    assert_eq!(d.deprecated_in, v(1, 2, 0));
    assert_eq!(d.reason, b"r2".to_vec());
    assert_eq!(iv.get_all_deprecations().len(), 1);
    assert!(iv.get_deprecation(&b"other".to_vec()).is_none());

    assert_eq!(iv.register_migration_path(1, v(2, 0, 0), v(1, 0, 0), vec![], vec![], vec![]), Err(BridgeError::InvalidInterfaceVersionRange));
    iv.register_migration_path(1, v(1, 0, 0), v(2, 0, 0), b"bump".to_vec(), vec![b"x".to_vec()], vec![]).unwrap();
    let p = iv.get_migration_path(&v(1, 0, 0), &v(2, 0, 0)).unwrap();
    assert_eq!(p.description, b"bump".to_vec());
    assert!(iv.get_migration_path(&v(1, 0, 0), &v(3, 0, 0)).is_none());
    assert_eq!(iv.get_all_migration_paths().len(), 1);
    assert_eq!(
        InterfaceVersioning::migration_key(&v(1, 2, 3), &v(4, 5, 6)),
        (1u128 << 80) | (2u128 << 64) | (3u128 << 48) | (4u128 << 32) | (5u128 << 16) | 6
    );
}
