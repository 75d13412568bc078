use teachlink::errors::RewardsError;
use teachlink::rewards::Rewards;
use teachlink::types::{Holder, Transfer};

fn ready() -> Rewards {
    let mut r = Rewards::new();
    r.initialize_rewards(50, 1).unwrap();
    r
}

#[test]
fn claim_rewards_rejects_when_reentrancy_guard_active() {
    let mut r = ready();
    r.guard_active = true;
    assert_eq!(r.claim_rewards(7, 0), Err(RewardsError::ReentrancyDetected));
}

#[test]
fn initialize_only_once() {
    let mut r = ready();
    assert_eq!(r.initialize_rewards(2, 3), Err(RewardsError::AlreadyInitialized));
    assert_eq!(r.get_rewards_admin(), 1);
}

#[test]
fn fund_issue_and_claim() {
    let mut r = ready();
    assert_eq!(r.fund_reward_pool(9, 0), Err(RewardsError::AmountMustBePositive));
    assert_eq!(
        r.fund_reward_pool(9, 1_000),
        Ok(Transfer { token: 50, from: Holder::Account(9), to: Holder::Contract, amount: 1_000 })
    );
    assert_eq!(r.get_reward_pool_balance(), 1_000);
    assert_eq!(r.issue_reward(7, 0, &b"course".to_vec()), Err(RewardsError::AmountMustBePositive));
    assert_eq!(r.issue_reward(7, 1_001, &b"course".to_vec()), Err(RewardsError::InsufficientRewardPoolBalance));
    r.issue_reward(7, 300, &b"course".to_vec()).unwrap();
    r.issue_reward(7, 200, &b"quiz".to_vec()).unwrap();
    let u = r.get_user_rewards(7).unwrap();
    assert_eq!((u.total_earned, u.pending, u.claimed), (500, 500, 0));
    // Issuing does not draw on the pool.
    assert_eq!(r.get_reward_pool_balance(), 1_000);
    assert_eq!(r.get_total_rewards_issued(), 500);

    assert_eq!(r.claim_rewards(8, 5), Err(RewardsError::NoRewardsAvailable));
    assert_eq!(
        r.claim_rewards(7, 5),
        Ok(Transfer { token: 50, from: Holder::Contract, to: Holder::Account(7), amount: 500 })
    );
    let u = r.get_user_rewards(7).unwrap();
    assert_eq!((u.total_earned, u.pending, u.claimed, u.last_claim_timestamp), (500, 0, 500, 5));
    assert_eq!(r.get_reward_pool_balance(), 500);
    assert_eq!(r.claim_rewards(7, 6), Err(RewardsError::NoPendingRewards));
}

#[test]
fn claim_needs_pool_to_cover_pending() {
    let mut r = ready();
    r.fund_reward_pool(9, 100).unwrap();
    r.issue_reward(7, 100, &b"a".to_vec()).unwrap();
    r.issue_reward(8, 100, &b"a".to_vec()).unwrap();
    r.claim_rewards(7, 1).unwrap();
    assert_eq!(r.claim_rewards(8, 1), Err(RewardsError::InsufficientRewardPoolBalance));
}

#[test]
fn fund_overflow_is_refused() {
    let mut r = ready();
    r.fund_reward_pool(9, i128::MAX).unwrap();
    assert_eq!(r.fund_reward_pool(9, 1), Err(RewardsError::ArithmeticOverflow));
    r.guard_active = true;
    assert_eq!(r.fund_reward_pool(9, 1), Err(RewardsError::ReentrancyDetected));
}

#[test]
fn reward_rates_are_set_by_type() {
    let mut r = ready();
    assert_eq!(r.set_reward_rate(b"course".to_vec(), -1, true), Err(RewardsError::RateCannotBeNegative));
    r.set_reward_rate(b"course".to_vec(), 10, true).unwrap();
    r.set_reward_rate(b"quiz".to_vec(), 5, false).unwrap();
    r.set_reward_rate(b"course".to_vec(), 12, false).unwrap();
    let c = r.get_reward_rate(&b"course".to_vec()).unwrap();
    assert_eq!((c.rate, c.enabled), (12, false));
    assert_eq!(r.get_reward_rate(&b"quiz".to_vec()).unwrap().rate, 5);
    assert!(r.get_reward_rate(&b"other".to_vec()).is_none());
    r.update_rewards_admin(4);
    assert_eq!(r.get_rewards_admin(), 4);
}
