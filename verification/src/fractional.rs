//! Fractional ownership of a content token.
use vstd::prelude::*;
use crate::id_map::IdMap;

verus! {

/// A token split into shares; `shareholders` maps each holder to the
/// number of shares held.
#[derive(Clone)]
pub struct FractionalVault {
    pub token_id: u64,
    pub total_shares: u128,
    pub price_per_share: u128,
    pub shareholders: IdMap<u128>,
}

} // verus!
