use soroban_sdk::Env;
use teachlink::atomic_swap::{AtomicSwap, AtomicSwapManager, SwapStatus, MIN_TIMELOCK};
use teachlink::errors::BridgeError;
use teachlink::types::{Holder, Transfer};

fn sha256(env: &Env, data: &[u8]) -> Vec<u8> {
    env.crypto().sha256(&soroban_sdk::Bytes::from_slice(env, data)).to_array().to_vec()
}

#[test]
fn initiate_swap_rejects_when_reentrancy_guard_active() {
    let mut m = AtomicSwapManager::new();
    m.guard_active = true;
    let r = m.initiate_swap(1, 10, 100, 2, 20, 100, vec![0xaa; 32], MIN_TIMELOCK, 0, 0);
    assert_eq!(r, Err(BridgeError::ReentrancyDetected));
}

#[test]
fn initiate_swap_validates_inputs() {
    let mut m = AtomicSwapManager::new();
    assert_eq!(m.initiate_swap(1, 10, 0, 2, 20, 100, vec![0; 32], MIN_TIMELOCK, 0, 0), Err(BridgeError::AmountMustBePositive));
    assert_eq!(m.initiate_swap(1, 10, 1, 2, 20, 100, vec![0; 31], MIN_TIMELOCK, 0, 0), Err(BridgeError::InvalidHashlock));
    assert_eq!(m.initiate_swap(1, 10, 1, 2, 20, 100, vec![0; 32], 10, 0, 0), Err(BridgeError::InvalidInput));
    assert_eq!(m.initiate_swap(1, 10, 1, 1, 20, 100, vec![0; 32], MIN_TIMELOCK, 0, 0), Err(BridgeError::InvalidInput));
    let (id, deposit) = m.initiate_swap(1, 10, 5, 2, 20, 7, vec![0; 32], MIN_TIMELOCK, 1_000, 50).unwrap();
    assert_eq!(id, 1);
    assert_eq!(deposit, Transfer { token: 10, from: Holder::Account(1), to: Holder::Contract, amount: 5 });
    assert_eq!(m.get_swap(1).unwrap().timelock, 1_000 + MIN_TIMELOCK);
    assert_eq!(m.get_swap_count(), 1);
    assert_eq!(m.get_swaps_by_initiator(1), vec![1]);
    assert_eq!(m.get_swaps_by_counterparty(2), vec![1]);
    assert_eq!(m.get_active_swaps(), vec![1]);
}

#[test]
fn accept_swap_with_preimage_pays_both_sides() {
    let env = Env::default();
    let preimage = b"secret".to_vec();
    let lock = sha256(&env, &preimage);
    let mut m = AtomicSwapManager::new();
    let (id, _) = m.initiate_swap(1, 10, 5, 2, 20, 7, lock, MIN_TIMELOCK, 1_000, 50).unwrap();
    assert_eq!(m.accept_swap(&env, id, 3, &preimage, 1_001, 51).err(), Some(BridgeError::Unauthorized));
    assert_eq!(m.accept_swap(&env, id, 2, &b"wrong".to_vec(), 1_001, 51).err(), Some(BridgeError::InvalidHashlock));
    assert_eq!(m.accept_swap(&env, id, 2, &vec![], 1_001, 51).err(), Some(BridgeError::InvalidHashlock));
    let (transfers, ev) = m.accept_swap(&env, id, 2, &preimage, 1_001, 51).unwrap();
    assert_eq!(ev.swap_id, id);
    assert_eq!(ev.completed_at, 1_001);
    assert_eq!(
        transfers,
        vec![
            Transfer { token: 20, from: Holder::Account(2), to: Holder::Contract, amount: 7 },
            Transfer { token: 20, from: Holder::Contract, to: Holder::Account(1), amount: 7 },
            Transfer { token: 10, from: Holder::Contract, to: Holder::Account(2), amount: 5 },
        ]
    );
    assert_eq!(m.get_swap(id).unwrap().status, SwapStatus::Completed);
    assert_eq!(m.refund_swap(id, 1, 999_999, 999).err(), Some(BridgeError::SwapAlreadyCompleted));
    assert_eq!(m.accept_swap(&env, id, 2, &preimage, 1_001, 51).err(), Some(BridgeError::SwapAlreadyCompleted));
}

#[test]
fn accept_after_expiry_marks_swap_expired() {
    let env = Env::default();
    let mut m = AtomicSwapManager::new();
    let (id, _) = m.initiate_swap(1, 10, 5, 2, 20, 7, vec![1; 32], MIN_TIMELOCK, 0, 0).unwrap();
    assert_eq!(m.get_expired_swaps(MIN_TIMELOCK + 1), vec![id]);
    assert!(m.is_swap_expired(id, MIN_TIMELOCK + 1));
    assert_eq!(m.accept_swap(&env, id, 2, &b"x".to_vec(), MIN_TIMELOCK + 1, 0).err(), Some(BridgeError::TimelockExpired));
    assert_eq!(m.get_swap(id).unwrap().status, SwapStatus::Expired);
    assert!(m.refund_swap(id, 1, MIN_TIMELOCK + 1, 0).is_ok());
    assert_eq!(m.get_swap(id).unwrap().status, SwapStatus::Refunded);
}

#[test]
fn refund_swap_uses_sequence_fallback_when_timestamp_not_advanced() {
    let mut m = AtomicSwapManager::new();
    m.swaps.insert(
        1,
        AtomicSwap {
            swap_id: 1,
            initiator: 1,
            initiator_token: 10,
            initiator_amount: 100,
            counterparty: 2,
            counterparty_token: 20,
            counterparty_amount: 100,
            hashlock: vec![0xaa; 32],
            timelock: 2_000,
            status: SwapStatus::Initiated,
            created_at: 1_000,
        },
    );
    m.timelock_seq.insert(1, 101);
    assert_eq!(m.refund_swap(1, 1, 1_000, 100).err(), Some(BridgeError::TimeoutNotReached));
    let r = m.refund_swap(1, 1, 1_000, 200);
    assert_eq!(r, Ok(Transfer { token: 10, from: Holder::Contract, to: Holder::Account(1), amount: 100 }));
}
