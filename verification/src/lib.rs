//! TeachLink: the rules of a knowledge-sharing platform's contract
//! (cross-chain bridge, validator consensus, atomic swaps, liquidity,
//! message passing, rewards and more), written as verified state
//! transitions over plain data.
pub mod id_map;
pub mod errors;
pub mod safe_stats;
pub mod config;
pub mod ledger_time;
pub mod bulk_limits;
pub mod dos_protection;
pub mod validation;
pub mod types;
pub mod events;
pub mod bridge;
pub mod mobile_platform;
pub mod crypto;
pub mod atomic_swap;
pub mod bft_consensus;
pub mod event_query;
pub mod access_logger;
pub mod liquidity;
pub mod message_passing;
pub mod multichain;
pub mod rewards;
pub mod arbitration;
pub mod escrow_analytics;
pub mod escrow;
pub mod keyed_seq;
pub mod interface_versioning;
pub mod governance;
pub mod rate_limiting;
pub mod network_recovery;
pub mod audit;
pub mod access_control;
pub mod feature_flags;
pub mod score;
pub mod reputation;
pub mod sustainability;
pub mod auto_scaling;
pub mod analytics;
pub mod performance;
pub mod social_learning;
pub mod notification_types;
pub mod licensing;
pub mod fractional;
pub mod repository;
pub mod key_order;
pub mod storage;
