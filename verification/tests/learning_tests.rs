use teachlink::reputation::ReputationManager;
use teachlink::score::ScoreManager;
use teachlink::sustainability::SustainabilityManager;

#[test]
fn test_record_invocation() {
    let mut s = SustainabilityManager::new();
    s.record_invocation(true, 10);
    let m = s.get_metrics(20);
    assert_eq!(m.total_invocations, 1);
    assert_eq!(m.total_storage_writes, 1);
    assert_eq!(m.last_updated, 10);
}

#[test]
fn test_update_efficiency() {
    let mut s = SustainabilityManager::new();
    s.update_efficiency(90, 100, 0);
    assert_eq!(s.get_metrics(0).efficiency_score, 9000);
    s.update_efficiency(5, 0, 0);
    assert_eq!(s.get_metrics(0).efficiency_score, 10000);
}

#[test]
fn test_health_score_full() {
    let mut s = SustainabilityManager::new();
    s.update_efficiency(1, 1, 0);
    let mut m = s.get_metrics(0);
    m.total_content_minted = 1000;
    m.total_active_users = 1000;
    s.metrics = Some(m);
    assert_eq!(s.health_score(0), 100);
}

#[test]
fn test_health_score_zero_ops() {
    let s = SustainabilityManager::new();
    assert_eq!(s.health_score(0), 50);
}

#[test]
fn health_score_weights_activity() {
    let mut s = SustainabilityManager::new();
    for _ in 0..500 {
        s.record_content_minted(1);
    }
    s.record_active_user(1);
    s.record_event(1);
    s.record_rewards(-5, 1);
    // efficiency 100 -> 50, content 50 -> 12, users 0.
    assert_eq!(s.health_score(1), 62);
    assert_eq!(s.get_metrics(1).total_rewards_distributed, -5);
}

#[test]
fn course_completions_count_once() {
    let mut m = ScoreManager::new();
    assert!(m.record_course_completion(1, 7, 50));
    assert!(!m.record_course_completion(1, 7, 50));
    assert!(m.record_course_completion(1, 8, 5));
    assert_eq!(m.get_score(1), 55);
    assert_eq!(m.get_courses(1), vec![7, 8]);
    m.record_contribution(1, 2, b"notes".to_vec(), 10, 99);
    assert_eq!(m.get_score(1), 65);
    let c = m.get_contributions(1).unwrap();
    assert_eq!(c.len(), 1);
    assert_eq!((c[0].points, c[0].timestamp, c[0].c_type), (10, 99, 2));
    assert_eq!(m.get_score(2), 0);
    assert!(m.get_courses(2).is_empty());
    assert_eq!(m.update_score(2, 3), 3);
}

#[test]
fn reputation_tracks_rates_and_quality() {
    let mut r = ReputationManager::new();
    r.update_course_progress(1, false, 1);
    r.update_course_progress(1, false, 2);
    r.update_course_progress(1, false, 3);
    let rep = r.update_course_progress(1, true, 4);
    assert_eq!((rep.total_courses_started, rep.total_courses_completed, rep.completion_rate), (3, 1, 3333));
    // A completion with no start counts as a start.
    let rep2 = r.update_course_progress(2, true, 5);
    assert_eq!((rep2.total_courses_started, rep2.completion_rate), (1, 10000));
    r.rate_contribution(1, 5, 6);
    r.rate_contribution(1, 2, 7);
    let rep = r.rate_contribution(1, 4, 8);
    assert_eq!((rep.total_contributions, rep.contribution_quality), (3, 3));
    let p = r.update_participation(1, 12, 9);
    assert_eq!(p.participation_score, 12);
    assert_eq!(r.get_reputation(1).last_update, 9);
    assert_eq!(r.get_reputation(3).total_contributions, 0);
}
