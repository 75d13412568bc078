use teachlink::auto_scaling::{AutoScaler, LoadLevel, DEFAULT_MAX_BATCH_SIZE};

fn loaded(gas: u64) -> AutoScaler {
    let mut a = AutoScaler::new();
    a.initialize(0).unwrap();
    a.update_load_metrics(8, 0, gas, 1).unwrap();
    a
}

#[test]
fn test_batch_size_scaling() {
    let mut a = AutoScaler::new();
    a.initialize(0).unwrap();
    assert_eq!(a.calculate_optimal_batch_size(0), DEFAULT_MAX_BATCH_SIZE);
}

#[test]
fn test_load_shedding_priority() {
    let mut a = AutoScaler::new();
    a.initialize(0).unwrap();
    assert!(!a.should_shed_operation(10, 0));
}

#[test]
fn test_gas_allocation_priority() {
    let mut a = AutoScaler::new();
    a.initialize(0).unwrap();
    let critical_gas = a.allocate_gas_budget(10, 1_000_000, 0);
    let low_gas = a.allocate_gas_budget(250, 1_000_000, 0);
    assert!(critical_gas > low_gas);
    assert_eq!(critical_gas, 1_200_000);
    assert_eq!(low_gas, 600_000);
}

#[test]
fn batch_size_shrinks_with_load() {
    // 2_500_000 of 5_000_000 gas: 50 % load.
    let a = loaded(2_500_000);
    assert_eq!(a.get_current_load_level(), LoadLevel::Medium);
    assert_eq!(a.calculate_optimal_batch_size(1), 10);
    let a = loaded(3_500_000); // 70 %
    assert_eq!(a.calculate_optimal_batch_size(1), 1 + (9 * 60) / 100);
    let a = loaded(4_000_000); // 80 %
    assert_eq!(a.get_current_load_level(), LoadLevel::High);
    assert_eq!(a.calculate_optimal_batch_size(1), 1 + (9 * 66) / 200);
    let a = loaded(4_600_000); // 92 %
    assert_eq!(a.get_current_load_level(), LoadLevel::Critical);
    assert_eq!(a.calculate_optimal_batch_size(1), 1);
}

#[test]
fn shedding_and_queuing_follow_load() {
    let a = loaded(4_000_000); // 80 %, high
    assert!(!a.should_shed_operation(200, 1));
    assert!(a.should_shed_operation(201, 1));
    assert!(a.should_queue_operation(149));
    assert!(!a.should_queue_operation(150));
    let a = loaded(4_600_000); // critical
    assert!(a.should_shed_operation(151, 1));
    assert!(!a.should_shed_operation(150, 1));
    assert_eq!(a.allocate_gas_budget(10, 1_000_000, 1), 600_000);
    assert_eq!(a.allocate_gas_budget(10, 1_000, 1), 100_000);
    assert_eq!(a.allocate_gas_budget(10, 100_000_000, 1), 10_000_000);
}

#[test]
fn metrics_accumulate_and_emergency_tightens() {
    let mut a = loaded(0);
    a.update_load_metrics(16, 3, 0, 2).unwrap();
    let m = a.metrics.unwrap();
    assert_eq!((m.processed_operations, m.shed_operations), (24, 3));
    // (10*7 + 8)/8 = 9, then (9*7 + 16)/8 = 9.
    assert_eq!(m.average_batch_size, 9);
    a.emergency_scaling().unwrap();
    let p = a.policy.unwrap();
    assert_eq!(p.max_batch_size, 1);
    assert_eq!(p.load_shedding_threshold, 50);
    a.reset_scaling(5).unwrap();
    assert_eq!(a.policy.unwrap().max_batch_size, 10);
}
