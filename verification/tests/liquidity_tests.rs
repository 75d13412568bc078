use teachlink::errors::BridgeError;
use teachlink::id_map::IdMap;
use teachlink::liquidity::{LPPosition, LiquidityManager, MAX_TIME_MULTIPLIER, TIME_SCALE};

const DAY: u64 = 24 * 60 * 60;

fn position(amount: i128, deposited_at: u64) -> LPPosition {
    LPPosition { provider: 7, amount, share_percentage: 0, deposited_at, rewards_earned: 0 }
}

#[test]
fn rewards_are_zero_without_fee_revenue() {
    let pos = position(100_000, 0);
    let rewards = LiquidityManager::calculate_lp_rewards(&pos, 200_000, 0, 1_000_000);
    assert_eq!(rewards, 0);
}

#[test]
fn rewards_are_proportional_to_fee_revenue() {
    let pos = position(50_000, 1_000_000);
    let rewards = LiquidityManager::calculate_lp_rewards(&pos, 100_000, 10_000, 1_000_000);
    assert_eq!(rewards, 5_000);
}

#[test]
fn long_term_position_earns_more_than_flash_position() {
    let now = 10_000_000u64;
    let flash = position(100_000, now);
    let long = position(100_000, now - 30 * DAY);
    let flash_rewards = LiquidityManager::calculate_lp_rewards(&flash, 200_000, 10_000, now);
    let long_rewards = LiquidityManager::calculate_lp_rewards(&long, 200_000, 10_000, now);
    assert_eq!(flash_rewards, 5_000);
    assert_eq!(long_rewards, 10_000);
    assert!(long_rewards > flash_rewards);
}

#[test]
fn rewards_stay_bounded_by_collected_fees() {
    let now = 10_000_000u64;
    let pos = position(100_000, now - 100 * DAY);
    let rewards = LiquidityManager::calculate_lp_rewards(&pos, 100_000, 10_000, now);
    assert_eq!(rewards, 10_000);
    assert!(rewards <= 10_000);
}

#[test]
fn time_multiplier_grows_with_duration_and_caps() {
    let now = 10_000_000u64;
    let p = position(1_000, now);
    assert_eq!(LiquidityManager::time_in_pool_multiplier(&p, now), TIME_SCALE);
    assert_eq!(LiquidityManager::time_in_pool_multiplier(&p, now + 30 * DAY), 2 * TIME_SCALE);
    assert_eq!(LiquidityManager::time_in_pool_multiplier(&p, now + 60 * DAY), 3 * TIME_SCALE);
    assert_eq!(LiquidityManager::time_in_pool_multiplier(&p, now + 100 * DAY), MAX_TIME_MULTIPLIER);
    // A clock behind the deposit counts as no time held.
    assert_eq!(LiquidityManager::time_in_pool_multiplier(&p, now - DAY), TIME_SCALE);
}

#[test]
fn add_and_remove_liquidity_track_positions_and_totals() {
    let mut m = LiquidityManager::new();
    assert_eq!(m.add_liquidity(1, 5, 100, 0), Err(BridgeError::DestinationChainNotSupported));
    m.initialize_pool(5, 42).unwrap();
    assert_eq!(m.add_liquidity(1, 5, 0, 0), Err(BridgeError::AmountMustBePositive));
    assert_eq!(m.add_liquidity(1, 5, 1_000, 10), Ok(10_000));
    assert_eq!(m.add_liquidity(2, 5, 3_000, 20), Ok(7_500));
    let p1 = m.get_lp_position(5, 1).unwrap();
    assert_eq!(p1.amount, 1_000);
    assert_eq!(p1.share_percentage, 10_000);
    assert_eq!(p1.deposited_at, 10);
    let pool = m.get_pool(5).unwrap();
    assert_eq!(pool.total_liquidity, 4_000);
    assert_eq!(pool.available_liquidity, 4_000);

    assert_eq!(m.remove_liquidity(3, 5, 10, 30), Err(BridgeError::InvalidInput));
    assert_eq!(m.remove_liquidity(1, 5, 2_000, 30), Err(BridgeError::InsufficientBalance));
    assert_eq!(m.remove_liquidity(1, 5, -1, 30), Err(BridgeError::AmountMustBePositive));

    // Fee revenue makes rewards: provider 2 holds 3/4 of the pool.
    assert_eq!(m.record_fee_revenue(5, 400), Ok(400));
    assert_eq!(m.get_accumulated_fees(5), 400);
    assert_eq!(m.remove_liquidity(2, 5, 1_000, 20), Ok(1_000 + 300));
    let p2 = m.get_lp_position(5, 2).unwrap();
    assert_eq!(p2.amount, 2_000);
    assert_eq!(p2.rewards_earned, 300);
    assert_eq!(p2.share_percentage, 6_666);
    assert_eq!(m.get_available_liquidity(5), 3_000);

    // Withdrawing everything closes the position.
    assert_eq!(m.remove_liquidity(1, 5, 1_000, 20), Ok(1_000 + 133));
    assert_eq!(m.get_lp_position(5, 1), None);
    assert_eq!(m.get_pool(5).unwrap().total_liquidity, 2_000);
}

#[test]
fn lock_and_unlock_move_liquidity_between_available_and_locked() {
    let mut m = LiquidityManager::new();
    m.initialize_pool(1, 9).unwrap();
    m.add_liquidity(4, 1, 1_000, 0).unwrap();
    assert_eq!(m.lock_liquidity(1, 1_001), Err(BridgeError::InsufficientLiquidity));
    assert_eq!(m.lock_liquidity(2, 10), Err(BridgeError::DestinationChainNotSupported));
    assert_eq!(m.lock_liquidity(1, 0), Err(BridgeError::AmountMustBePositive));
    m.lock_liquidity(1, 600).unwrap();
    let pool = m.get_pool(1).unwrap();
    assert_eq!(pool.available_liquidity, 400);
    assert_eq!(pool.locked_liquidity, 600);
    assert!(m.has_sufficient_liquidity(1, 400));
    assert!(!m.has_sufficient_liquidity(1, 401));
    m.unlock_liquidity(1, 600).unwrap();
    let pool = m.get_pool(1).unwrap();
    assert_eq!(pool.available_liquidity, 1_000);
    assert_eq!(pool.locked_liquidity, 0);
    assert_eq!(m.get_available_liquidity(3), 0);
}

#[test]
fn bridge_fee_follows_congestion_discount_and_bounds() {
    let mut m = LiquidityManager::new();
    // No pool: base rate 10 bps of 1_000_000 = 1_000.
    assert_eq!(m.calculate_bridge_fee(1, 1_000_000, 0), Ok(1_000));
    // 5 % volume discount at 100_000 of volume.
    assert_eq!(m.calculate_bridge_fee(1, 1_000_000, 100_000), Ok(950));
    // 20 % discount at 1_000_000.
    assert_eq!(m.calculate_bridge_fee(1, 1_000_000, 2_000_000), Ok(800));
    // Congestion: 60 % locked gives 1.5x.
    m.initialize_pool(1, 9).unwrap();
    m.add_liquidity(4, 1, 1_000, 0).unwrap();
    m.lock_liquidity(1, 600).unwrap();
    assert_eq!(m.calculate_bridge_fee(1, 1_000_000, 0), Ok(1_500));
    m.lock_liquidity(1, 300).unwrap();
    assert_eq!(m.calculate_bridge_fee(1, 1_000_000, 0), Ok(3_000));
    // The minimum fee is 1 bps of the amount.
    assert_eq!(m.calculate_bridge_fee(2, 100, 0), Ok(0));
    assert_eq!(m.calculate_bridge_fee(2, 1_000_000, 2_000_000), Ok(800));
}

#[test]
fn update_fee_structure_validates_and_replaces() {
    let mut m = LiquidityManager::new();
    assert_eq!(m.update_fee_structure(0, 100, IdMap::new(), 5).map(|_| ()), Err(BridgeError::FeeCannotBeNegative));
    assert_eq!(m.update_fee_structure(501, 100, IdMap::new(), 5).map(|_| ()), Err(BridgeError::FeeCannotBeNegative));
    let mut tiers = IdMap::new();
    tiers.insert(50, 1_000);
    let ev = m.update_fee_structure(100, 120, tiers, 5).unwrap();
    assert_eq!((ev.old_fee, ev.new_fee, ev.multiplier), (10, 100, 120));
    let f = m.get_fee_structure(99);
    assert_eq!(f.base_fee, 100);
    assert_eq!(f.dynamic_multiplier, 120);
    assert_eq!(f.congestion_multiplier, 100);
    assert_eq!(f.last_updated, 5);
    // 100 bps of 10_000 is 100, less 10 % discount.
    assert_eq!(m.calculate_bridge_fee(1, 10_000, 60), Ok(90));
    assert_eq!(m.calculate_bridge_fee(1, 10_000, 40), Ok(100));
}

#[test]
fn default_fee_structure_has_the_four_tiers() {
    let m = LiquidityManager::new();
    let f = m.get_fee_structure(77);
    assert_eq!(f.base_fee, 10);
    assert_eq!(f.last_updated, 77);
    assert_eq!(f.volume_discount_tiers.len(), 4);
    assert_eq!(LiquidityManager::calculate_volume_discount(&f.volume_discount_tiers, 9_999), 0);
    assert_eq!(LiquidityManager::calculate_volume_discount(&f.volume_discount_tiers, 500_000), 1_000);
}
