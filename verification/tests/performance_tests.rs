use teachlink::performance::{PerformanceManager, CACHE_TTL_SECS, MAX_TOP_CHAINS};

#[test]
fn summary_is_cached_for_an_hour() {
    let mut p = PerformanceManager::new();
    assert!(p.get_cached_summary(0).is_none());
    let ev = p.compute_and_cache_summary(80, &vec![3, 1, 2], 1_000).unwrap();
    assert_eq!((ev.health_score, ev.computed_at), (80, 1_000));
    let c = p.get_cached_summary(1_000 + CACHE_TTL_SECS).unwrap();
    assert_eq!(c.top_chains, vec![3, 1, 2]);
    assert!(p.get_cached_summary(1_001 + CACHE_TTL_SECS).is_none());
}

#[test]
fn summary_keeps_at_most_the_top_chains() {
    let mut p = PerformanceManager::new();
    let chains: Vec<u32> = (0..30).collect();
    p.compute_and_cache_summary(50, &chains, 7).unwrap();
    let c = p.get_cached_summary(7).unwrap();
    assert_eq!(c.top_chains.len(), MAX_TOP_CHAINS as usize);
    assert_eq!(c.top_chains[19], 19);
}

#[test]
fn get_or_compute_serves_fresh_cache_then_recomputes() {
    let mut p = PerformanceManager::new();
    let first = p.get_or_compute_summary(90, &vec![1], 100).unwrap();
    assert_eq!((first.health_score, first.computed_at), (90, 100));
    // fresh: the new inputs are ignored
    let again = p.get_or_compute_summary(10, &vec![2], 200).unwrap();
    assert_eq!((again.health_score, again.computed_at, again.top_chains), (90, 100, vec![1]));
    // stale: recomputed
    let later = p.get_or_compute_summary(10, &vec![2], 101 + CACHE_TTL_SECS).unwrap();
    assert_eq!((later.health_score, later.computed_at, later.top_chains), (10, 101 + CACHE_TTL_SECS, vec![2]));
    p.invalidate_cache(5).unwrap();
    assert!(p.get_cached_summary(101 + CACHE_TTL_SECS).is_none());
}
