//! Professional arbitrators for escrow disputes: registration, profile
//! updates, picking one for a dispute, and reputation after resolutions.
//!
//! Reputation moves by +10 (capped at 1000) for a successful resolution and
//! by -20 (floored at 0) otherwise.
use vstd::prelude::*;
use crate::errors::EscrowError;
use crate::escrow::{Escrow, EscrowStatus};
use crate::id_map::IdMap;
use crate::types::AccountId;

verus! {

/// Highest reputation score.
pub const MAX_REPUTATION: u32 = 1000;
/// Reputation gained by a successful resolution.
pub const REPUTATION_GAIN: u32 = 10;
/// Reputation lost by an unsuccessful resolution.
pub const REPUTATION_LOSS: u32 = 20;
/// How long an escrow may wait without approvals before it counts as
/// stalled (7 days).
pub const STALL_TIMEOUT_SECS: u64 = 604_800;

/// An arbitrator's public profile.
#[derive(Clone, Debug)]
pub struct ArbitratorProfile {
    pub address: AccountId,
    pub name: Vec<u8>,
    pub specialization: Vec<Vec<u8>>,
    pub reputation_score: u32,
    pub total_resolved: u64,
    pub dispute_types_handled: Vec<Vec<u8>>,
    pub is_active: bool,
}

/// The reputation after one more resolution.
pub open spec fn next_reputation(score: u32, success: bool) -> u32 {
    if success {
        if score + REPUTATION_GAIN < MAX_REPUTATION { (score + REPUTATION_GAIN) as u32 } else { MAX_REPUTATION }
    } else {
        if score >= REPUTATION_LOSS { (score - REPUTATION_LOSS) as u32 } else { 0 }
    }
}

/// Whether `escrow` is pending and has gone seven days since creation
/// without any approval at `now`.
pub open spec fn stalled(escrow: Escrow, now: u64) -> bool {
    escrow.status == EscrowStatus::Pending && now > escrow.created_at + STALL_TIMEOUT_SECS && escrow.approval_count == 0
}

/// The first active arbitrator, in address order.
pub open spec fn first_active(s: Seq<(u64, ArbitratorProfile)>) -> Option<u64>
    decreases s.len(),
{
    if s.len() == 0 {
        None
    } else if s[0].1.is_active {
        Some(s[0].0)
    } else {
        first_active(s.drop_first())
    }
}

/// The registered arbitrators.
#[derive(Clone)]
pub struct ArbitrationManager {
    /// Profiles by address.
    pub arbitrators: IdMap<ArbitratorProfile>,
}

impl ArbitrationManager {
    /// The table is well formed.
    pub open spec fn wf(&self) -> bool {
        self.arbitrators.wf()
    }

    /// No arbitrators.
    pub fn new() -> (m: Self)
        ensures
            m.wf(),
            m.arbitrators@ == Map::<u64, ArbitratorProfile>::empty(),
    {
        ArbitrationManager { arbitrators: IdMap::new() }
    }

    /// Register (or replace) the profile of `profile.address`.
    pub fn register_arbitrator(&mut self, profile: ArbitratorProfile) -> (r: Result<(), EscrowError>)
        requires
            old(self).wf(),
        ensures
            final(self).wf(),
            r is Ok,
            final(self).arbitrators@ == old(self).arbitrators@.insert(profile.address, profile),
    {
        let address = profile.address;
        self.arbitrators.insert(address, profile);
        Ok(())
    }

    /// `address` replaces its own profile.  The profile must carry the same
    /// address, and the arbitrator must be registered.
    pub fn update_profile(&mut self, address: AccountId, profile: ArbitratorProfile) -> (r: Result<(), EscrowError>)
        requires
            old(self).wf(),
        ensures
            final(self).wf(),
            address != profile.address || !old(self).arbitrators@.contains_key(address) ==>
                r == Err::<(), EscrowError>(EscrowError::SignerNotAuthorized) && *final(self) == *old(self),
            address == profile.address && old(self).arbitrators@.contains_key(address) ==>
                r is Ok && final(self).arbitrators@ == old(self).arbitrators@.insert(address, profile),
    {
        if address != profile.address {
            return Err(EscrowError::SignerNotAuthorized);
        }
        if !self.arbitrators.contains_key(address) {
            return Err(EscrowError::SignerNotAuthorized);
        }
        self.arbitrators.insert(address, profile);
        Ok(())
    }

    /// The profile of `address`, if registered.
    pub fn get_arbitrator(&self, address: AccountId) -> (r: Option<&ArbitratorProfile>)
        requires
            self.wf(),
        ensures
            match r {
                Some(p) => self.arbitrators@.contains_key(address) && *p == self.arbitrators@[address],
                None => !self.arbitrators@.contains_key(address),
            },
    {
        self.arbitrators.get(address)
    }

    /// The first active arbitrator in address order.
    pub fn pick_arbitrator(&self) -> (r: Result<AccountId, EscrowError>)
        requires
            self.wf(),
        ensures
            match first_active(self.arbitrators.entries()) {
                Some(a) => r == Ok::<AccountId, EscrowError>(a),
                None => r == Err::<AccountId, EscrowError>(EscrowError::ArbitratorNotAuthorized),
            },
    {
        let ghost s = self.arbitrators.entries();
        let n = self.arbitrators.len();
        let mut i: usize = 0;
        assert(s.skip(0) =~= s);
        while i < n
            invariant
                s == self.arbitrators.entries(),
                n == s.len(),
                i <= n,
                first_active(s) == first_active(s.skip(i as int)),
            decreases n - i,
        {
            proof {
                assert(s.skip(i as int).drop_first() =~= s.skip(i as int + 1));
                assert(s.skip(i as int)[0] == s[i as int]);
            }
            if self.arbitrators.value_at(i).is_active {
                return Ok(self.arbitrators.key_at(i));
            }
            i = i + 1;
        }
        proof { assert(s.skip(n as int) =~= Seq::<(u64, ArbitratorProfile)>::empty()); }
        Err(EscrowError::ArbitratorNotAuthorized)
    }

    /// Whether `escrow` is pending and has gone seven days since creation
    /// without any approval at `now`.
    pub fn check_stalled_escrow(escrow: &Escrow, now: u64) -> (b: bool)
        requires
            escrow.status == EscrowStatus::Pending ==> escrow.created_at + STALL_TIMEOUT_SECS <= u64::MAX,
        ensures
            b == stalled(*escrow, now),
    {
        if escrow.status != EscrowStatus::Pending {
            return false;
        }
        now > escrow.created_at + STALL_TIMEOUT_SECS && escrow.approval_count == 0
    }

    /// Count one more resolution by `arbitrator_addr` and move its
    /// reputation; unregistered arbitrators are left alone.
    pub fn update_reputation(&mut self, arbitrator_addr: AccountId, success: bool) -> (r: Result<(), EscrowError>)
        requires
            old(self).wf(),
            old(self).arbitrators@.contains_key(arbitrator_addr) ==> old(self).arbitrators@[arbitrator_addr].total_resolved < u64::MAX,
        ensures
            final(self).wf(),
            r is Ok,
            !old(self).arbitrators@.contains_key(arbitrator_addr) ==> *final(self) == *old(self),
            old(self).arbitrators@.contains_key(arbitrator_addr) ==> {
                let p = old(self).arbitrators@[arbitrator_addr];
                final(self).arbitrators@ == old(self).arbitrators@.insert(arbitrator_addr, ArbitratorProfile {
                    total_resolved: (p.total_resolved + 1) as u64,
                    reputation_score: next_reputation(p.reputation_score, success),
                    ..p
                })
            },
    {
        if !self.arbitrators.contains_key(arbitrator_addr) {
            return Ok(());
        }
        let mut profile = self.arbitrators.remove(arbitrator_addr).unwrap();
        profile.total_resolved = profile.total_resolved + 1;
        if success {
            let raised = profile.reputation_score.saturating_add(REPUTATION_GAIN);
            profile.reputation_score = if raised < MAX_REPUTATION { raised } else { MAX_REPUTATION };
        } else {
            profile.reputation_score = profile.reputation_score.saturating_sub(REPUTATION_LOSS);
        }
        self.arbitrators.insert(arbitrator_addr, profile);
        proof {
            let p = old(self).arbitrators@[arbitrator_addr];
            assert(self.arbitrators@ =~= old(self).arbitrators@.insert(arbitrator_addr, ArbitratorProfile {
                total_resolved: (p.total_resolved + 1) as u64,
                reputation_score: next_reputation(p.reputation_score, success),
                ..p
            }));
        }
        Ok(())
    }
}

/// Reputation stays within `[0, 1000]` once it is there, whatever the
/// outcomes.
pub proof fn law_reputation_stays_in_range(score: u32, success: bool)
    requires
        score <= MAX_REPUTATION,
    ensures
        next_reputation(score, success) <= MAX_REPUTATION,
        success ==> next_reputation(score, success) >= score,
        !success ==> next_reputation(score, success) <= score,
{
}

} // verus!
