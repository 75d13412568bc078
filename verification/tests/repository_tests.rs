use teachlink::repository::{CounterRepository, GenericCounterRepository, StorageError};

#[test]
fn test_generic_counter_repository() {
    let mut counter = GenericCounterRepository::new();

    // Test initial value
    assert_eq!(counter.get().unwrap(), 0);

    // Test increment
    assert_eq!(counter.increment().unwrap(), 1);
    assert_eq!(counter.get().unwrap(), 1);

    // Test multiple increments
    assert_eq!(counter.increment().unwrap(), 2);
    assert_eq!(counter.increment().unwrap(), 3);

    // Test reset
    counter.reset().unwrap();
    assert_eq!(counter.get().unwrap(), 0);
}

#[test]
fn counter_reads_back_what_was_written() {
    let mut c = GenericCounterRepository::new();
    assert_eq!(c.get(), Ok(0));
    assert_eq!(c.increment(), Ok(1));
    assert_eq!(c.increment_by(5), Ok(6));
    assert_eq!(c.decrement(), Ok(5));
    c.set(9).unwrap();
    assert_eq!(c.get(), Ok(9));
    c.reset().unwrap();
    assert_eq!(c.decrement(), Ok(0));
    assert_eq!(CounterRepository::increment(&mut c), Ok(1));
    assert_eq!(CounterRepository::get(&c), Ok(1));
    CounterRepository::reset(&mut c).unwrap();
    assert_eq!(c.get(), Ok(0));
}

#[test]
fn storage_errors_compare_by_kind() {
    assert_eq!(StorageError::NotFound, StorageError::NotFound);
    assert_ne!(StorageError::NotFound, StorageError::StorageFull);
}
