//! Cross-chain atomic swaps (hash time-locked contracts).
//!
//! The initiator locks tokens under `hashlock = SHA-256(preimage)` until a
//! timelock.  The counterparty claims them by revealing the preimage, paying
//! its own side to the initiator in the same step.  After the timelock the
//! initiator can take its tokens back.  A swap expires when either its
//! timestamp deadline or its ledger-sequence deadline has passed.
use vstd::prelude::*;
use crate::errors::BridgeError;
use crate::id_map::{IdMap, keys_where, lemma_keys_where_step};
use crate::types::{AccountId, Holder, Transfer, bytes_equal};
use crate::ledger_time::{seconds_to_ledger_delta, ledger_delta};
use crate::config::{SWAP_MIN_TIMELOCK, SWAP_MAX_TIMELOCK, SWAP_HASH_LENGTH};
use crate::crypto::{sha256_digest, sha256_of};
use soroban_sdk::Env;

verus! {

/// Minimum timelock duration (1 hour).
pub const MIN_TIMELOCK: u64 = SWAP_MIN_TIMELOCK;

/// Maximum timelock duration (7 days).
pub const MAX_TIMELOCK: u64 = SWAP_MAX_TIMELOCK;

/// Hash length (32 bytes for SHA-256).
pub const HASH_LENGTH: u32 = SWAP_HASH_LENGTH;

/// Where a swap stands.
#[derive(Copy, Clone, Debug, PartialEq, Eq, Structural)]
pub enum SwapStatus {
    Initiated,
    Completed,
    Refunded,
    Expired,
}

/// One swap.
#[derive(Clone, Debug)]
pub struct AtomicSwap {
    pub swap_id: u64,
    pub initiator: AccountId,
    pub initiator_token: AccountId,
    pub initiator_amount: i128,
    pub counterparty: AccountId,
    pub counterparty_token: AccountId,
    pub counterparty_amount: i128,
    pub hashlock: Vec<u8>,
    /// Timestamp after which the swap has expired.
    pub timelock: u64,
    pub status: SwapStatus,
    pub created_at: u64,
}

/// A swap was completed.
#[derive(Copy, Clone, Debug, PartialEq, Eq, Structural)]
pub struct SwapCompletedEvent {
    pub swap_id: u64,
    pub completed_at: u64,
}

/// The stored swaps.
#[derive(Clone)]
pub struct AtomicSwapManager {
    pub swaps: IdMap<AtomicSwap>,
    /// The last swap id handed out.
    pub swap_counter: u64,
    /// Ledger-sequence deadlines by swap id.
    pub timelock_seq: IdMap<u32>,
    pub guard_active: bool,
}

/// Whether a swap with timestamp deadline `timelock` and sequence deadline
/// `seq_deadline` has expired at ledger time `now` and sequence `sequence`.
pub open spec fn timelock_expired_at(timelock: u64, seq_deadline: Option<u32>, now: u64, sequence: u32) -> bool {
    now > timelock || (seq_deadline matches Some(d) && sequence > d)
}

/// Whether `preimage` opens `hashlock`: it is non-empty and hashes to it.
pub open spec fn opens_hashlock(preimage: Seq<u8>, hashlock: Seq<u8>) -> bool {
    preimage.len() > 0 && sha256_of(preimage) == hashlock
}

impl AtomicSwapManager {
    pub open spec fn wf(&self) -> bool {
        self.swaps.wf() && self.timelock_seq.wf()
    }

    /// The sequence deadline stored for `swap_id`.
    pub open spec fn seq_deadline(&self, swap_id: u64) -> Option<u32> {
        if self.timelock_seq@.contains_key(swap_id) { Some(self.timelock_seq@[swap_id]) } else { None }
    }

    /// Whether swap `swap_id` (with timestamp deadline `timelock`) has expired.
    pub open spec fn expired(&self, swap_id: u64, timelock: u64, now: u64, sequence: u32) -> bool {
        timelock_expired_at(timelock, self.seq_deadline(swap_id), now, sequence)
    }

    /// No swaps yet.
    pub fn new() -> (m: Self)
        ensures
            m.wf(),
            m.swaps@ == Map::<u64, AtomicSwap>::empty(),
            m.swap_counter == 0,
            !m.guard_active,
    {
        AtomicSwapManager { swaps: IdMap::new(), swap_counter: 0, timelock_seq: IdMap::new(), guard_active: false }
    }

    fn timelock_expired(&self, swap_id: u64, timelock_ts: u64, now: u64, sequence: u32) -> (b: bool)
        requires
            self.wf(),
        ensures
            b == self.expired(swap_id, timelock_ts, now, sequence),
    {
        if now > timelock_ts {
            return true;
        }
        match self.timelock_seq.get(swap_id) {
            Some(d) => sequence > *d,
            None => false,
        }
    }

    /// The error `initiate_swap` refuses with, if any.
    pub open spec fn initiate_error(
        &self,
        initiator: AccountId,
        initiator_amount: i128,
        counterparty: AccountId,
        counterparty_amount: i128,
        hashlock: Seq<u8>,
        timelock: u64,
    ) -> Option<BridgeError> {
        if self.guard_active {
            Some(BridgeError::ReentrancyDetected)
        } else if initiator_amount <= 0 || counterparty_amount <= 0 {
            Some(BridgeError::AmountMustBePositive)
        } else if hashlock.len() != HASH_LENGTH {
            Some(BridgeError::InvalidHashlock)
        } else if timelock < MIN_TIMELOCK || timelock > MAX_TIMELOCK {
            Some(BridgeError::InvalidInput)
        } else if initiator == counterparty {
            Some(BridgeError::InvalidInput)
        } else {
            None
        }
    }

    /// Open a swap: `initiator` locks `initiator_amount` of `initiator_token`
    /// for `counterparty`, who is to pay `counterparty_amount` of
    /// `counterparty_token`.  The swap expires `timelock` seconds from `now`
    /// (between 1 hour and 7 days), or once the ledger sequence passes
    /// `sequence` plus the ledgers covering `timelock`.  Returns the new swap
    /// id and the deposit to perform.
    pub fn initiate_swap(
        &mut self,
        initiator: AccountId,
        initiator_token: AccountId,
        initiator_amount: i128,
        counterparty: AccountId,
        counterparty_token: AccountId,
        counterparty_amount: i128,
        hashlock: Vec<u8>,
        timelock: u64,
        now: u64,
        sequence: u32,
    ) -> (r: Result<(u64, Transfer), BridgeError>)
        requires
            old(self).wf(),
            old(self).initiate_error(initiator, initiator_amount, counterparty, counterparty_amount, hashlock@, timelock) is None ==> {
                &&& old(self).swap_counter < u64::MAX
                &&& now + timelock <= u64::MAX
            },
        ensures
            final(self).wf(),
            match old(self).initiate_error(initiator, initiator_amount, counterparty, counterparty_amount, hashlock@, timelock) {
                Some(e) => r matches Err(e2) && e2 == e && *final(self) == *old(self),
                None => {
                    let id = (old(self).swap_counter + 1) as u64;
                    let d = ledger_delta(timelock as nat);
                    &&& r == Ok::<(u64, Transfer), BridgeError>((id, Transfer {
                        token: initiator_token,
                        from: Holder::Account(initiator),
                        to: Holder::Contract,
                        amount: initiator_amount,
                    }))
                    &&& final(self).swap_counter == id
                    &&& final(self).swaps@ == old(self).swaps@.insert(id, AtomicSwap {
                        swap_id: id,
                        initiator,
                        initiator_token,
                        initiator_amount,
                        counterparty,
                        counterparty_token,
                        counterparty_amount,
                        hashlock,
                        timelock: (now + timelock) as u64,
                        status: SwapStatus::Initiated,
                        created_at: now,
                    })
                    &&& final(self).timelock_seq@ == old(self).timelock_seq@.insert(id,
                        if sequence + d > u32::MAX { u32::MAX } else { (sequence + d) as u32 })
                    &&& final(self).guard_active == old(self).guard_active
                },
            },
    {
        if self.guard_active {
            return Err(BridgeError::ReentrancyDetected);
        }
        if initiator_amount <= 0 || counterparty_amount <= 0 {
            return Err(BridgeError::AmountMustBePositive);
        }
        if hashlock.len() != HASH_LENGTH as usize {
            return Err(BridgeError::InvalidHashlock);
        }
        if timelock < MIN_TIMELOCK || timelock > MAX_TIMELOCK {
            return Err(BridgeError::InvalidInput);
        }
        if initiator == counterparty {
            return Err(BridgeError::InvalidInput);
        }
        let swap_counter = self.swap_counter + 1;
        let swap = AtomicSwap {
            swap_id: swap_counter,
            initiator,
            initiator_token,
            initiator_amount,
            counterparty,
            counterparty_token,
            counterparty_amount,
            hashlock,
            timelock: now + timelock,
            status: SwapStatus::Initiated,
            created_at: now,
        };
        self.swaps.insert(swap_counter, swap);
        self.swap_counter = swap_counter;
        let deadline_seq = sequence.saturating_add(seconds_to_ledger_delta(timelock));
        self.timelock_seq.insert(swap_counter, deadline_seq);
        Ok((swap_counter, Transfer {
            token: initiator_token,
            from: Holder::Account(initiator),
            to: Holder::Contract,
            amount: initiator_amount,
        }))
    }

    /// Whether `preimage` opens `hashlock`: it must be non-empty and its
    /// SHA-256 digest (computed by the host environment) must equal the lock.
    pub fn verify_hashlock(env: &Env, preimage: &Vec<u8>, hashlock: &Vec<u8>) -> (b: bool)
        requires
            preimage@.len() <= u32::MAX,
        ensures
            b == opens_hashlock(preimage@, hashlock@),
    {
        if preimage.len() == 0 {
            return false;
        }
        let digest = sha256_digest(env, preimage);
        bytes_equal(&digest, hashlock)
    }

    /// The error `accept_swap` refuses with, given whether the preimage opens
    /// the lock; `None` also when the swap turns out expired (see below).
    pub open spec fn accept_error(&self, swap_id: u64, counterparty: AccountId, opens: bool, now: u64, sequence: u32) -> Option<BridgeError> {
        if self.guard_active {
            Some(BridgeError::ReentrancyDetected)
        } else if !self.swaps@.contains_key(swap_id) {
            Some(BridgeError::SwapNotFound)
        } else if self.swaps@[swap_id].status != SwapStatus::Initiated {
            Some(BridgeError::SwapAlreadyCompleted)
        } else if self.expired(swap_id, self.swaps@[swap_id].timelock, now, sequence) {
            Some(BridgeError::TimelockExpired)
        } else if self.swaps@[swap_id].counterparty != counterparty {
            Some(BridgeError::Unauthorized)
        } else if !opens {
            Some(BridgeError::InvalidHashlock)
        } else {
            None
        }
    }

    /// The swap `swap_id` with its status replaced.
    pub open spec fn with_status(&self, swap_id: u64, status: SwapStatus) -> Map<u64, AtomicSwap> {
        self.swaps@.insert(swap_id, AtomicSwap { status, ..self.swaps@[swap_id] })
    }

    /// Complete swap `swap_id` for `counterparty`, who reveals `preimage`.
    /// A swap found expired is marked `Expired` and refused.  On success the
    /// swap is `Completed` and three transfers follow: the counterparty's
    /// payment into the contract, that payment on to the initiator, and the
    /// initiator's locked tokens to the counterparty.
    pub fn accept_swap(&mut self, env: &Env, swap_id: u64, counterparty: AccountId, preimage: &Vec<u8>, now: u64, sequence: u32)
        -> (r: Result<(Vec<Transfer>, SwapCompletedEvent), BridgeError>)
        requires
            old(self).wf(),
            preimage@.len() <= u32::MAX,
        ensures
            final(self).wf(),
            ({
                let opens = old(self).swaps@.contains_key(swap_id) && opens_hashlock(preimage@, old(self).swaps@[swap_id].hashlock@);
                match old(self).accept_error(swap_id, counterparty, opens, now, sequence) {
                    Some(BridgeError::TimelockExpired) => r matches Err(e) && e == BridgeError::TimelockExpired
                        && final(self).swaps@ == old(self).with_status(swap_id, SwapStatus::Expired)
                        && final(self).swap_counter == old(self).swap_counter
                        && final(self).timelock_seq == old(self).timelock_seq
                        && final(self).guard_active == old(self).guard_active,
                    Some(e) => r matches Err(e2) && e2 == e && *final(self) == *old(self),
                    None => {
                        let s = old(self).swaps@[swap_id];
                        &&& r matches Ok((transfers, ev)) && ev == (SwapCompletedEvent { swap_id, completed_at: now })
                            && transfers@ == seq![
                                Transfer { token: s.counterparty_token, from: Holder::Account(counterparty), to: Holder::Contract, amount: s.counterparty_amount },
                                Transfer { token: s.counterparty_token, from: Holder::Contract, to: Holder::Account(s.initiator), amount: s.counterparty_amount },
                                Transfer { token: s.initiator_token, from: Holder::Contract, to: Holder::Account(counterparty), amount: s.initiator_amount },
                            ]
                        &&& final(self).swaps@ == old(self).with_status(swap_id, SwapStatus::Completed)
                        &&& final(self).swap_counter == old(self).swap_counter
                        &&& final(self).timelock_seq == old(self).timelock_seq
                        &&& final(self).guard_active == old(self).guard_active
                    },
                }
            }),
    {
        if self.guard_active {
            return Err(BridgeError::ReentrancyDetected);
        }
        let (status, timelock, expected_counterparty, counterparty_token, counterparty_amount, initiator_token, initiator_amount, initiator) =
            match self.swaps.get(swap_id) {
                Some(s) => (s.status, s.timelock, s.counterparty, s.counterparty_token, s.counterparty_amount,
                    s.initiator_token, s.initiator_amount, s.initiator),
                None => return Err(BridgeError::SwapNotFound),
            };
        if status != SwapStatus::Initiated {
            return Err(BridgeError::SwapAlreadyCompleted);
        }
        if self.timelock_expired(swap_id, timelock, now, sequence) {
            self.set_status(swap_id, SwapStatus::Expired);
            return Err(BridgeError::TimelockExpired);
        }
        if expected_counterparty != counterparty {
            return Err(BridgeError::Unauthorized);
        }
        let opens = match self.swaps.get(swap_id) {
            Some(s) => Self::verify_hashlock(env, preimage, &s.hashlock),
            None => false,
        };
        if !opens {
            return Err(BridgeError::InvalidHashlock);
        }
        self.set_status(swap_id, SwapStatus::Completed);
        let mut transfers: Vec<Transfer> = Vec::new();
        transfers.push(Transfer { token: counterparty_token, from: Holder::Account(counterparty), to: Holder::Contract, amount: counterparty_amount });
        transfers.push(Transfer { token: counterparty_token, from: Holder::Contract, to: Holder::Account(initiator), amount: counterparty_amount });
        transfers.push(Transfer { token: initiator_token, from: Holder::Contract, to: Holder::Account(counterparty), amount: initiator_amount });
        Ok((transfers, SwapCompletedEvent { swap_id, completed_at: now }))
    }

    /// Replace the status of an existing swap.
    fn set_status(&mut self, swap_id: u64, status: SwapStatus)
        requires
            old(self).wf(),
            old(self).swaps@.contains_key(swap_id),
        ensures
            final(self).wf(),
            final(self).swaps@ == old(self).with_status(swap_id, status),
            final(self).swap_counter == old(self).swap_counter,
            final(self).timelock_seq == old(self).timelock_seq,
            final(self).guard_active == old(self).guard_active,
    {
        match self.swaps.remove(swap_id) {
            Some(mut swap) => {
                swap.status = status;
                self.swaps.insert(swap_id, swap);
                assert(self.swaps@ =~= old(self).with_status(swap_id, status));
            },
            None => {},
        }
    }

    /// The error `refund_swap` refuses with, if any.
    pub open spec fn refund_error(&self, swap_id: u64, initiator: AccountId, now: u64, sequence: u32) -> Option<BridgeError> {
        if self.guard_active {
            Some(BridgeError::ReentrancyDetected)
        } else if !self.swaps@.contains_key(swap_id) {
            Some(BridgeError::SwapNotFound)
        } else if self.swaps@[swap_id].initiator != initiator {
            Some(BridgeError::Unauthorized)
        } else if self.swaps@[swap_id].status == SwapStatus::Completed || self.swaps@[swap_id].status == SwapStatus::Refunded {
            Some(BridgeError::SwapAlreadyCompleted)
        } else if !self.expired(swap_id, self.swaps@[swap_id].timelock, now, sequence) {
            Some(BridgeError::TimeoutNotReached)
        } else {
            None
        }
    }

    /// Give the initiator its locked tokens back once swap `swap_id` has
    /// expired.  A completed or refunded swap cannot be refunded.
    pub fn refund_swap(&mut self, swap_id: u64, initiator: AccountId, now: u64, sequence: u32) -> (r: Result<Transfer, BridgeError>)
        requires
            old(self).wf(),
        ensures
            final(self).wf(),
            match old(self).refund_error(swap_id, initiator, now, sequence) {
                Some(e) => r matches Err(e2) && e2 == e && *final(self) == *old(self),
                None => {
                    let s = old(self).swaps@[swap_id];
                    &&& r == Ok::<Transfer, BridgeError>(Transfer {
                        token: s.initiator_token,
                        from: Holder::Contract,
                        to: Holder::Account(initiator),
                        amount: s.initiator_amount,
                    })
                    &&& final(self).swaps@ == old(self).with_status(swap_id, SwapStatus::Refunded)
                    &&& final(self).swap_counter == old(self).swap_counter
                    &&& final(self).timelock_seq == old(self).timelock_seq
                    &&& final(self).guard_active == old(self).guard_active
                },
            },
    {
        if self.guard_active {
            return Err(BridgeError::ReentrancyDetected);
        }
        let (owner, status, timelock, token, amount) = match self.swaps.get(swap_id) {
            Some(s) => (s.initiator, s.status, s.timelock, s.initiator_token, s.initiator_amount),
            None => return Err(BridgeError::SwapNotFound),
        };
        if owner != initiator {
            return Err(BridgeError::Unauthorized);
        }
        if status == SwapStatus::Completed || status == SwapStatus::Refunded {
            return Err(BridgeError::SwapAlreadyCompleted);
        }
        if !self.timelock_expired(swap_id, timelock, now, sequence) {
            return Err(BridgeError::TimeoutNotReached);
        }
        self.set_status(swap_id, SwapStatus::Refunded);
        Ok(Transfer { token, from: Holder::Contract, to: Holder::Account(initiator), amount })
    }

    /// The swap with id `swap_id`, if any.
    pub fn get_swap(&self, swap_id: u64) -> (r: Option<&AtomicSwap>)
        requires
            self.wf(),
        ensures
            match r {
                Some(s) => self.swaps@.contains_key(swap_id) && *s == self.swaps@[swap_id],
                None => !self.swaps@.contains_key(swap_id),
            },
    {
        self.swaps.get(swap_id)
    }

    /// Ids of the swaps opened by `initiator`, in increasing order.
    pub fn get_swaps_by_initiator(&self, initiator: AccountId) -> (ids: Vec<u64>)
        ensures
            ids@ == keys_where(self.swaps.entries(), |s: AtomicSwap| s.initiator == initiator),
    {
        let ghost p = |s: AtomicSwap| s.initiator == initiator;
        let mut result: Vec<u64> = Vec::new();
        let mut i: usize = 0;
        while i < self.swaps.len()
            invariant
                i <= self.swaps.entries().len(),
                p == |s: AtomicSwap| s.initiator == initiator,
                result@ == keys_where(self.swaps.entries().take(i as int), p),
            decreases self.swaps.entries().len() - i,
        {
            proof { lemma_keys_where_step(self.swaps.entries(), i as int, p); }
            if self.swaps.value_at(i).initiator == initiator {
                result.push(self.swaps.key_at(i));
            }
            i = i + 1;
        }
        proof { assert(self.swaps.entries().take(i as int) =~= self.swaps.entries()); }
        result
    }

    /// Ids of the swaps addressed to `counterparty`, in increasing order.
    pub fn get_swaps_by_counterparty(&self, counterparty: AccountId) -> (ids: Vec<u64>)
        ensures
            ids@ == keys_where(self.swaps.entries(), |s: AtomicSwap| s.counterparty == counterparty),
    {
        let ghost p = |s: AtomicSwap| s.counterparty == counterparty;
        let mut result: Vec<u64> = Vec::new();
        let mut i: usize = 0;
        while i < self.swaps.len()
            invariant
                i <= self.swaps.entries().len(),
                p == |s: AtomicSwap| s.counterparty == counterparty,
                result@ == keys_where(self.swaps.entries().take(i as int), p),
            decreases self.swaps.entries().len() - i,
        {
            proof { lemma_keys_where_step(self.swaps.entries(), i as int, p); }
            if self.swaps.value_at(i).counterparty == counterparty {
                result.push(self.swaps.key_at(i));
            }
            i = i + 1;
        }
        proof { assert(self.swaps.entries().take(i as int) =~= self.swaps.entries()); }
        result
    }

    /// Ids of the swaps still `Initiated`, in increasing order.
    pub fn get_active_swaps(&self) -> (ids: Vec<u64>)
        ensures
            ids@ == keys_where(self.swaps.entries(), |s: AtomicSwap| s.status == SwapStatus::Initiated),
    {
        let ghost p = |s: AtomicSwap| s.status == SwapStatus::Initiated;
        let mut result: Vec<u64> = Vec::new();
        let mut i: usize = 0;
        while i < self.swaps.len()
            invariant
                i <= self.swaps.entries().len(),
                p == |s: AtomicSwap| s.status == SwapStatus::Initiated,
                result@ == keys_where(self.swaps.entries().take(i as int), p),
            decreases self.swaps.entries().len() - i,
        {
            proof { lemma_keys_where_step(self.swaps.entries(), i as int, p); }
            if self.swaps.value_at(i).status == SwapStatus::Initiated {
                result.push(self.swaps.key_at(i));
            }
            i = i + 1;
        }
        proof { assert(self.swaps.entries().take(i as int) =~= self.swaps.entries()); }
        result
    }

    /// Ids of the swaps still `Initiated` whose timestamp deadline has passed
    /// at `now`, in increasing order.
    pub fn get_expired_swaps(&self, now: u64) -> (ids: Vec<u64>)
        ensures
            ids@ == keys_where(self.swaps.entries(), |s: AtomicSwap| s.status == SwapStatus::Initiated && now > s.timelock),
    {
        let ghost p = |s: AtomicSwap| s.status == SwapStatus::Initiated && now > s.timelock;
        let mut result: Vec<u64> = Vec::new();
        let mut i: usize = 0;
        while i < self.swaps.len()
            invariant
                i <= self.swaps.entries().len(),
                p == |s: AtomicSwap| s.status == SwapStatus::Initiated && now > s.timelock,
                result@ == keys_where(self.swaps.entries().take(i as int), p),
            decreases self.swaps.entries().len() - i,
        {
            proof { lemma_keys_where_step(self.swaps.entries(), i as int, p); }
            let s = self.swaps.value_at(i);
            if s.status == SwapStatus::Initiated && now > s.timelock {
                result.push(self.swaps.key_at(i));
            }
            i = i + 1;
        }
        proof { assert(self.swaps.entries().take(i as int) =~= self.swaps.entries()); }
        result
    }

    /// The number of swaps ever opened.
    pub fn get_swap_count(&self) -> (n: u64)
        ensures
            n == self.swap_counter,
    {
        self.swap_counter
    }

    /// Whether swap `swap_id` is still `Initiated` with its timestamp
    /// deadline passed at `now` (false for an unknown swap).
    pub fn is_swap_expired(&self, swap_id: u64, now: u64) -> (b: bool)
        requires
            self.wf(),
        ensures
            b == (self.swaps@.contains_key(swap_id) && now > self.swaps@[swap_id].timelock
                && self.swaps@[swap_id].status == SwapStatus::Initiated),
    {
        match self.swaps.get(swap_id) {
            Some(s) => now > s.timelock && s.status == SwapStatus::Initiated,
            None => false,
        }
    }
}

/// At no moment can both a claim and a refund of the same swap go through:
/// a claim needs the swap unexpired, a refund needs it expired.
pub proof fn law_claim_and_refund_exclude_each_other(
    m: AtomicSwapManager,
    swap_id: u64,
    counterparty: AccountId,
    opens: bool,
    initiator: AccountId,
    now: u64,
    sequence: u32,
)
    ensures
        !(m.accept_error(swap_id, counterparty, opens, now, sequence) is None
            && m.refund_error(swap_id, initiator, now, sequence) is None),
{
}

/// A swap that was completed or refunded pays out nothing more: both a claim
/// and a refund are refused.
pub proof fn law_settled_swap_pays_out_once(
    m: AtomicSwapManager,
    swap_id: u64,
    counterparty: AccountId,
    opens: bool,
    initiator: AccountId,
    now: u64,
    sequence: u32,
)
    requires
        m.swaps@.contains_key(swap_id),
        m.swaps@[swap_id].status == SwapStatus::Completed || m.swaps@[swap_id].status == SwapStatus::Refunded,
    ensures
        m.accept_error(swap_id, counterparty, opens, now, sequence) is Some,
        m.refund_error(swap_id, initiator, now, sequence) is Some,
{
}

/// Only the preimage of the lock opens it: a claim whose preimage does not
/// hash to the lock is refused.
pub proof fn law_claim_needs_preimage(
    m: AtomicSwapManager,
    swap_id: u64,
    counterparty: AccountId,
    now: u64,
    sequence: u32,
)
    ensures
        m.accept_error(swap_id, counterparty, false, now, sequence) is Some,
{
}

} // verus!
