use teachlink::event_query::{get_events_in_range, is_event_in_category, EventCategory, EventQuery, EventType};

#[test]
fn test_event_query_builder() {
    let query = EventQuery::new()
        .with_type(EventType::BridgeInitiated)
        .from_timestamp(1000)
        .to_timestamp(2000);

    assert!(query.event_type.is_some());
    assert!(query.from_timestamp.is_some());
    assert!(query.to_timestamp.is_some());
}

#[test]
fn test_categorization() {
    assert!(is_event_in_category(&EventType::BridgeInitiated, &EventCategory::Bridge));
    assert!(is_event_in_category(&EventType::EscrowCreated, &EventCategory::Escrow));
    assert!(is_event_in_category(&EventType::ValidatorSlashed, &EventCategory::Slashing));
    assert!(is_event_in_category(&EventType::InsuranceClaimProcessed, &EventCategory::Insurance));

    assert!(!is_event_in_category(&EventType::BridgeInitiated, &EventCategory::Escrow));
    assert!(!is_event_in_category(&EventType::EscrowCreated, &EventCategory::Bridge));
}

#[test]
fn categories_without_event_types_hold_none() {
    assert!(!is_event_in_category(&EventType::BridgeInitiated, &EventCategory::AtomicSwap));
    assert!(!is_event_in_category(&EventType::RewardClaimed, &EventCategory::Analytics));
    assert!(is_event_in_category(&EventType::RewardPoolFunded, &EventCategory::Slashing));
    assert!(!is_event_in_category(&EventType::RewardPoolFunded, &EventCategory::Rewards));
}

#[test]
fn range_query_is_built_and_finds_nothing_stored() {
    let q = get_events_in_range(10, 20);
    assert_eq!(q.from_timestamp, Some(10));
    assert_eq!(q.to_timestamp, Some(20));
    assert_eq!(q.event_type, None);
    assert!(q.execute().is_empty());
    assert_eq!(EventType::EscrowResolved.name(), "e_res");
}
