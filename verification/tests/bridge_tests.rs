use teachlink::bridge::{Bridge, BRIDGE_RETRY_DELAY_BASE_SECONDS, BRIDGE_TIMEOUT_SECONDS};
use teachlink::errors::BridgeError;
use teachlink::types::{CrossChainMessage, Holder, Transfer};

const TOKEN: u64 = 100;
const ADMIN: u64 = 1;
const FEE_RECIPIENT: u64 = 2;
const USER: u64 = 10;

fn ready_bridge() -> Bridge {
    let mut b = Bridge::new();
    b.initialize(TOKEN, ADMIN, 1, FEE_RECIPIENT).unwrap();
    b.add_supported_chain(2).unwrap();
    b
}

fn message(nonce: u64, token: u64, amount: i128) -> CrossChainMessage {
    CrossChainMessage {
        source_chain: 1,
        source_tx_hash: vec![0xab; 32],
        nonce,
        token,
        amount,
        recipient: 55,
        destination_chain: 2,
    }
}

#[test]
fn initialize_twice_is_refused() {
    let mut b = ready_bridge();
    assert_eq!(b.initialize(TOKEN, ADMIN, 1, FEE_RECIPIENT), Err(BridgeError::AlreadyInitialized));
    let mut fresh = Bridge::new();
    assert_eq!(fresh.initialize(TOKEN, ADMIN, 0, FEE_RECIPIENT), Err(BridgeError::MinimumValidatorsMustBeAtLeastOne));
}

#[test]
fn bridge_out_records_transaction_and_charges_fee() {
    let mut b = ready_bridge();
    b.set_bridge_fee(30).unwrap();
    let receipt = b.bridge_out(USER, 1_000, 2, b"dest".to_vec(), 5_000).unwrap();
    assert_eq!(receipt.nonce, 1);
    assert_eq!(b.get_nonce(), 1);
    assert_eq!(
        receipt.transfers,
        vec![
            Transfer { token: TOKEN, from: Holder::Account(USER), to: Holder::Contract, amount: 1_000 },
            Transfer { token: TOKEN, from: Holder::Contract, to: Holder::Account(FEE_RECIPIENT), amount: 30 },
        ]
    );
    let tx = b.get_bridge_transaction(1).unwrap();
    assert_eq!(tx.amount, 970);
    assert_eq!(tx.destination_address, b"dest".to_vec());
    assert_eq!(receipt.event.transaction.amount, 970);
    // A fee not below the amount is not charged.
    let receipt2 = b.bridge_out(USER, 30, 2, b"dest".to_vec(), 5_000).unwrap();
    assert_eq!(receipt2.nonce, 2);
    assert_eq!(receipt2.transfers.len(), 1);
    assert_eq!(b.get_bridge_transaction(2).unwrap().amount, 30);
}

#[test]
fn bridge_out_refusals() {
    let mut b = ready_bridge();
    assert_eq!(b.bridge_out(USER, 0, 2, b"d".to_vec(), 1).err(), Some(BridgeError::AmountMustBePositive));
    assert_eq!(b.bridge_out(USER, 5, 2, vec![], 1).err(), Some(BridgeError::InvalidInput));
    assert_eq!(b.bridge_out(USER, 5, 9, b"d".to_vec(), 1).err(), Some(BridgeError::DestinationChainNotSupported));
    b.guard_active = true;
    assert_eq!(b.bridge_out(USER, 5, 2, b"d".to_vec(), 1).err(), Some(BridgeError::ReentrancyDetected));
    let mut uninit = Bridge::new();
    assert_eq!(uninit.add_supported_chain(2), Err(BridgeError::NotInitialized));
}

#[test]
fn mark_bridge_failed_requires_existing_tx() {
    let mut b = ready_bridge();
    assert_eq!(b.mark_bridge_failed(99, b"failure".to_vec()), Err(BridgeError::BridgeTransactionNotFound));
    assert_eq!(b.mark_bridge_failed(99, vec![]), Err(BridgeError::InvalidInput));
}

#[test]
fn cancel_bridge_rejects_when_reentrancy_guard_active() {
    let mut b = ready_bridge();
    b.guard_active = true;
    assert_eq!(b.cancel_bridge(1, 0).err(), Some(BridgeError::ReentrancyDetected));
}

#[test]
fn cancel_after_failure_or_timeout_refunds() {
    let mut b = ready_bridge();
    b.bridge_out(USER, 500, 2, b"dest".to_vec(), 1_000).unwrap();
    assert_eq!(b.cancel_bridge(1, 1_000).err(), Some(BridgeError::TimeoutNotReached));
    b.mark_bridge_failed(1, b"timeout".to_vec()).unwrap();
    assert_eq!(
        b.cancel_bridge(1, 1_000),
        Ok(Transfer { token: TOKEN, from: Holder::Contract, to: Holder::Account(USER), amount: 500 })
    );
    assert!(b.get_bridge_transaction(1).is_none());
    b.bridge_out(USER, 400, 2, b"dest".to_vec(), 1_000).unwrap();
    assert!(b.refund_bridge_transaction(2, 1_000 + BRIDGE_TIMEOUT_SECONDS).is_ok());
}

#[test]
fn complete_bridge_rejects_replay_when_nonce_already_processed() {
    let mut b = ready_bridge();
    b.add_validator(77).unwrap();
    let sigs = vec![77u64];
    let done = b.complete_bridge(message(7, TOKEN, 100), &sigs).unwrap();
    assert_eq!(done.mint_to, 55);
    assert_eq!(done.mint_amount, 100);
    let r = b.complete_bridge(message(7, TOKEN, 100), &sigs);
    assert_eq!(r.err(), Some(BridgeError::NonceAlreadyProcessed));
}

#[test]
fn complete_bridge_checks_signers_and_token() {
    let mut b = ready_bridge();
    b.add_validator(77).unwrap();
    assert_eq!(b.complete_bridge(message(1, TOKEN, 100), &vec![]).err(), Some(BridgeError::InsufficientValidatorSignatures));
    assert_eq!(b.complete_bridge(message(1, TOKEN, 100), &vec![78]).err(), Some(BridgeError::InvalidValidatorSignature));
    assert_eq!(b.complete_bridge(message(1, 999, 100), &vec![77]).err(), Some(BridgeError::TokenMismatch));
    // a refused completion leaves the nonce free
    assert!(b.complete_bridge(message(1, TOKEN, 100), &vec![77]).is_ok());
    b.remove_validator(77).unwrap();
    assert!(!b.is_validator(77));
    assert_eq!(b.complete_bridge(message(2, TOKEN, 100), &vec![77]).err(), Some(BridgeError::InvalidValidatorSignature));
}

#[test]
fn retry_bridge_enforces_backoff_and_limit() {
    let mut b = ready_bridge();
    b.bridge_out(USER, 500, 2, b"dest".to_vec(), 10_000).unwrap();
    assert_eq!(b.retry_bridge(1, 10_000).err(), Some(BridgeError::RetryBackoffActive));
    let mut now = 10_000u64;
    for retry_count in 0..5u32 {
        now += BRIDGE_RETRY_DELAY_BASE_SECONDS * (1u64 << retry_count);
        let ev = b.retry_bridge(1, now).expect("retry should pass");
        assert_eq!(ev.retry_count, retry_count + 1);
    }
    assert_eq!(b.retry_bridge(1, now + 100_000).err(), Some(BridgeError::RetryLimitExceeded));
}

#[test]
fn admin_settings() {
    let mut b = ready_bridge();
    assert_eq!(b.set_bridge_fee(-1), Err(BridgeError::FeeCannotBeNegative));
    assert_eq!(b.set_min_validators(0), Err(BridgeError::MinimumValidatorsMustBeAtLeastOne));
    b.set_min_validators(3).unwrap();
    b.set_fee_recipient(9).unwrap();
    b.set_bridge_fee(12).unwrap();
    assert_eq!(b.get_bridge_fee(), 12);
    assert_eq!(b.get_token(), TOKEN);
    assert_eq!(b.get_admin(), ADMIN);
    assert!(b.is_chain_supported(2));
    b.remove_supported_chain(2).unwrap();
    assert!(!b.is_chain_supported(2));
}

#[test]
fn test_bridge_initialization_and_access_control() {
    let admin = 1;
    let token = 2;
    let fee_recipient = 3;
    let min_validators = 2;
    let mut bridge = Bridge::new();

    // Test Initialization
    let result = bridge.initialize(token, admin, min_validators, fee_recipient);
    assert!(result.is_ok());

    // Test Double Initialization (Should Fail)
    let result_fail = bridge.initialize(token, admin, min_validators, fee_recipient);
    assert_eq!(result_fail.unwrap_err(), BridgeError::AlreadyInitialized);
}
