//! Events that state transitions hand back for publication.
use vstd::prelude::*;
use crate::escrow::{DisputeOutcome, Escrow, EscrowStatus};
use crate::types::{AccountId, BridgeTransaction, CrossChainMessage};

verus! {

/// A bridge-out was recorded.
#[derive(Clone)]
pub struct BridgeInitiatedEvent {
    pub nonce: u64,
    pub transaction: BridgeTransaction,
}

/// An incoming transfer was completed.
#[derive(Clone)]
pub struct BridgeCompletedEvent {
    pub nonce: u64,
    pub message: CrossChainMessage,
}

/// A pending transaction was retried.
#[derive(Copy, Clone, Debug, PartialEq, Eq, Structural)]
pub struct BridgeRetryEvent {
    pub nonce: u64,
    pub retry_count: u32,
    pub retried_at: u64,
}

/// Liquidity was added to a pool.
#[derive(Copy, Clone, Debug, PartialEq, Eq, Structural)]
pub struct LiquidityAddedEvent {
    pub provider: AccountId,
    pub chain_id: u32,
    pub amount: i128,
    pub share_percentage: u32,
}

/// Liquidity was withdrawn from a pool, with the rewards paid on it.
#[derive(Copy, Clone, Debug, PartialEq, Eq, Structural)]
pub struct LiquidityRemovedEvent {
    pub provider: AccountId,
    pub chain_id: u32,
    pub amount: i128,
    pub rewards: i128,
}

/// The fee structure was replaced.
#[derive(Copy, Clone, Debug, PartialEq, Eq, Structural)]
pub struct FeeUpdatedEvent {
    pub old_fee: i128,
    pub new_fee: i128,
    pub multiplier: u32,
}

/// Fee revenue was credited to a pool.
#[derive(Copy, Clone, Debug, PartialEq, Eq, Structural)]
pub struct FeeRevenueRecordedEvent {
    pub chain_id: u32,
    pub amount: i128,
    pub accumulated_fees: i128,
}

/// An escrow was opened.
#[derive(Clone)]
pub struct EscrowCreatedEvent {
    pub escrow: Escrow,
}

/// A disputed escrow was settled by its arbitrator.
#[derive(Copy, Clone, Debug, PartialEq, Eq, Structural)]
pub struct EscrowResolvedEvent {
    pub escrow_id: u64,
    pub outcome: DisputeOutcome,
    pub status: EscrowStatus,
}

/// The bridge-wide figures were refreshed; `success_rate` is in basis
/// points.
#[derive(Copy, Clone, Debug, PartialEq, Eq, Structural)]
pub struct BridgeMetricsUpdatedEvent {
    pub total_volume: i128,
    pub total_transactions: u64,
    pub active_validators: u32,
    pub average_confirmation_time: u64,
    pub success_rate: u32,
    pub updated_at: u64,
}

/// The figures of one chain were refreshed.
#[derive(Copy, Clone, Debug, PartialEq, Eq, Structural)]
pub struct ChainMetricsUpdatedEvent {
    pub chain_id: u32,
    pub volume_in: i128,
    pub volume_out: i128,
    pub transaction_count: u64,
    pub average_fee: i128,
    pub updated_at: u64,
}

} // verus!
