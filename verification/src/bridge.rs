//! Cross-chain token bridge.
//!
//! Tokens leave this chain by `bridge_out`, which locks them in the contract
//! (minus the bridge fee) and records a pending transaction under a fresh
//! nonce.  Tokens arrive by `complete_bridge`, which validators sign; each
//! incoming nonce is accepted once only.  A pending transaction can be
//! retried with exponential back-off, marked failed, and cancelled for a
//! refund once it has failed or timed out.
use vstd::prelude::*;
use crate::errors::BridgeError;
use crate::id_map::IdMap;
use crate::types::{AccountId, BridgeTransaction, CrossChainMessage, Holder, Transfer, copy_bytes};
use crate::events::{BridgeCompletedEvent, BridgeInitiatedEvent, BridgeRetryEvent};

verus! {

/// A pending transaction can be cancelled after this many seconds (7 days).
pub const BRIDGE_TIMEOUT_SECONDS: u64 = 604_800;

/// Retries allowed per transaction.
pub const MAX_BRIDGE_RETRY_ATTEMPTS: u32 = 5;

/// Base delay between retries (5 minutes); the delay doubles with each retry.
pub const BRIDGE_RETRY_DELAY_BASE_SECONDS: u64 = 300;

/// Whether the flag stored under `k` is set.
pub open spec fn flag_set(m: Map<u64, bool>, k: u64) -> bool {
    m.contains_key(k) && m[k]
}

/// `a - b`, floored at zero.
pub open spec fn sat_sub(a: u64, b: u64) -> u64 {
    if a >= b { (a - b) as u64 } else { 0 }
}

/// `a + b`, capped at `u64::MAX`.
pub open spec fn sat_add(a: u64, b: u64) -> u64 {
    if a + b > u64::MAX { u64::MAX } else { (a + b) as u64 }
}

/// `a * b`, capped at `u64::MAX`.
pub open spec fn sat_mul(a: u64, b: u64) -> u64 {
    if a * b > u64::MAX { u64::MAX } else { (a * b) as u64 }
}

/// `2^count` for the retry counts that can occur (below 5).
pub open spec fn backoff_factor(count: u32) -> u64 {
    if count == 0 { 1 } else if count == 1 { 2 } else if count == 2 { 4 } else if count == 3 { 8 } else { 16 }
}

/// The delay required before retry number `count + 1`: `300 * 2^count`.
pub open spec fn retry_delay(count: u32) -> u64 {
    sat_mul(BRIDGE_RETRY_DELAY_BASE_SECONDS, backoff_factor(count))
}

/// What `bridge_out` hands back: the new nonce, the token movements to make
/// (the deposit into the contract, then the fee to the fee recipient) and the
/// event to publish.
#[derive(Clone)]
pub struct BridgeOutReceipt {
    pub nonce: u64,
    pub transfers: Vec<Transfer>,
    pub event: BridgeInitiatedEvent,
}

/// What `complete_bridge` hands back: the tokens to mint and the event.
#[derive(Clone)]
pub struct BridgeCompletion {
    pub mint_token: AccountId,
    pub mint_to: AccountId,
    pub mint_amount: i128,
    pub event: BridgeCompletedEvent,
}

/// The bridge's stored state.
#[derive(Clone)]
pub struct Bridge {
    /// The bridged token; set once the bridge is initialized.
    pub token: Option<AccountId>,
    pub admin: Option<AccountId>,
    pub min_validators: Option<u32>,
    pub bridge_fee: Option<i128>,
    pub fee_recipient: Option<AccountId>,
    /// The last nonce handed out.
    pub nonce: u64,
    /// Pending outgoing transactions by nonce.
    pub transactions: IdMap<BridgeTransaction>,
    pub retry_counts: IdMap<u32>,
    pub last_retry: IdMap<u64>,
    /// Failure reasons by nonce.
    pub failures: IdMap<Vec<u8>>,
    /// Validator flags by account.
    pub validators: IdMap<bool>,
    /// Supported destination chains (chain id as key).
    pub supported_chains: IdMap<bool>,
    /// Incoming nonces already completed.
    pub processed_nonces: IdMap<bool>,
    /// Set while a guarded operation runs; a guarded call finding it set is
    /// refused as re-entrant.
    pub guard_active: bool,
}

impl Bridge {
    /// Well-formedness: every table is ordered, and an initialized bridge
    /// has an admin and a fee recipient.
    pub open spec fn wf(&self) -> bool {
        &&& self.transactions.wf()
        &&& self.retry_counts.wf()
        &&& self.last_retry.wf()
        &&& self.failures.wf()
        &&& self.validators.wf()
        &&& self.supported_chains.wf()
        &&& self.processed_nonces.wf()
        &&& (self.token is Some ==> self.admin is Some && self.fee_recipient is Some)
    }

    /// The retry count recorded for `nonce` (0 when none).
    pub open spec fn retry_count_of(&self, nonce: u64) -> u32 {
        if self.retry_counts@.contains_key(nonce) { self.retry_counts@[nonce] } else { 0 }
    }

    /// The last retry time recorded for `nonce` (0 when none).
    pub open spec fn last_retry_of(&self, nonce: u64) -> u64 {
        if self.last_retry@.contains_key(nonce) { self.last_retry@[nonce] } else { 0 }
    }

    /// The configured fee (0 when unset).
    pub open spec fn fee_of(&self) -> i128 {
        match self.bridge_fee { Some(f) => f, None => 0 }
    }

    /// A bridge with nothing stored.
    pub fn new() -> (b: Self)
        ensures
            b.wf(),
            b.token is None,
            b.admin is None,
            b.nonce == 0,
            b.transactions@ == Map::<u64, BridgeTransaction>::empty(),
            b.validators@ == Map::<u64, bool>::empty(),
            b.supported_chains@ == Map::<u64, bool>::empty(),
            b.processed_nonces@ == Map::<u64, bool>::empty(),
            !b.guard_active,
    {
        Bridge {
            token: None,
            admin: None,
            min_validators: None,
            bridge_fee: None,
            fee_recipient: None,
            nonce: 0,
            transactions: IdMap::new(),
            retry_counts: IdMap::new(),
            last_retry: IdMap::new(),
            failures: IdMap::new(),
            validators: IdMap::new(),
            supported_chains: IdMap::new(),
            processed_nonces: IdMap::new(),
            guard_active: false,
        }
    }

    /// Initialize the bridge: token, admin, minimum validator count and fee
    /// recipient; the fee starts at 0.  Refused when already initialized or
    /// when `min_validators` is 0.
    pub fn initialize(&mut self, token: AccountId, admin: AccountId, min_validators: u32, fee_recipient: AccountId) -> (r: Result<(), BridgeError>)
        requires
            old(self).wf(),
        ensures
            final(self).wf(),
            old(self).token is Some ==> r == Err::<(), BridgeError>(BridgeError::AlreadyInitialized) && *final(self) == *old(self),
            old(self).token is None && min_validators == 0 ==> r == Err::<(), BridgeError>(BridgeError::MinimumValidatorsMustBeAtLeastOne) && *final(self) == *old(self),
            old(self).token is None && min_validators != 0 ==> r is Ok && *final(self) == (Bridge {
                token: Some(token),
                admin: Some(admin),
                min_validators: Some(min_validators),
                bridge_fee: Some(0i128),
                fee_recipient: Some(fee_recipient),
                ..*old(self)
            }),
    {
        if self.token.is_some() {
            return Err(BridgeError::AlreadyInitialized);
        }
        if min_validators == 0 {
            return Err(BridgeError::MinimumValidatorsMustBeAtLeastOne);
        }
        self.token = Some(token);
        self.admin = Some(admin);
        self.min_validators = Some(min_validators);
        self.bridge_fee = Some(0);
        self.fee_recipient = Some(fee_recipient);
        Ok(())
    }

    /// The error `bridge_out` refuses with, if any.
    pub open spec fn bridge_out_error(&self, amount: i128, destination_chain: u32, destination_address: Seq<u8>) -> Option<BridgeError> {
        if self.guard_active {
            Some(BridgeError::ReentrancyDetected)
        } else if amount <= 0 {
            Some(BridgeError::AmountMustBePositive)
        } else if destination_address.len() == 0 {
            Some(BridgeError::InvalidInput)
        } else if !flag_set(self.supported_chains@, destination_chain as u64) {
            Some(BridgeError::DestinationChainNotSupported)
        } else if self.token is None {
            Some(BridgeError::NotInitialized)
        } else {
            None
        }
    }

    /// Whether a bridge-out of `amount` pays the configured fee: only a
    /// positive fee smaller than the amount is charged.
    pub open spec fn charges_fee(&self, amount: i128) -> bool {
        self.fee_of() > 0 && self.fee_of() < amount
    }

    /// Lock `amount` of the bridged token from `from` for delivery to
    /// `destination_address` on `destination_chain`.  The whole amount moves
    /// into the contract; when a fee is charged it is passed on to the fee
    /// recipient and the recorded amount is `amount - fee`.  The transaction
    /// is stored under the next nonce with a fresh retry record.
    pub fn bridge_out(&mut self, from: AccountId, amount: i128, destination_chain: u32, destination_address: Vec<u8>, now: u64) -> (r: Result<BridgeOutReceipt, BridgeError>)
        requires
            old(self).wf(),
            old(self).bridge_out_error(amount, destination_chain, destination_address@) is None ==> old(self).nonce < u64::MAX,
        ensures
            final(self).wf(),
            match old(self).bridge_out_error(amount, destination_chain, destination_address@) {
                Some(e) => r matches Err(e2) && e2 == e && *final(self) == *old(self),
                None => r matches Ok(receipt) && {
                    let n = (old(self).nonce + 1) as u64;
                    let token = old(self).token->0;
                    let net: i128 = if old(self).charges_fee(amount) { (amount - old(self).fee_of()) as i128 } else { amount };
                    let tx = BridgeTransaction {
                        nonce: n,
                        token,
                        amount: net as i128,
                        recipient: from,
                        destination_chain,
                        destination_address,
                        timestamp: now,
                    };
                    &&& receipt.nonce == n
                    &&& final(self).nonce == n
                    &&& final(self).transactions@ == old(self).transactions@.insert(n, tx)
                    &&& final(self).retry_counts@ == old(self).retry_counts@.insert(n, 0u32)
                    &&& final(self).last_retry@ == old(self).last_retry@.insert(n, now)
                    &&& final(self).failures == old(self).failures
                    &&& final(self).validators == old(self).validators
                    &&& final(self).supported_chains == old(self).supported_chains
                    &&& final(self).processed_nonces == old(self).processed_nonces
                    &&& final(self).token == old(self).token
                    &&& final(self).admin == old(self).admin
                    &&& final(self).bridge_fee == old(self).bridge_fee
                    &&& final(self).fee_recipient == old(self).fee_recipient
                    &&& final(self).min_validators == old(self).min_validators
                    &&& final(self).guard_active == old(self).guard_active
                    &&& receipt.transfers@ == if old(self).charges_fee(amount) {
                        seq![
                            Transfer { token, from: Holder::Account(from), to: Holder::Contract, amount },
                            Transfer { token, from: Holder::Contract, to: Holder::Account(old(self).fee_recipient->0), amount: old(self).fee_of() },
                        ]
                    } else {
                        seq![Transfer { token, from: Holder::Account(from), to: Holder::Contract, amount }]
                    }
                    &&& receipt.event.nonce == n
                    &&& receipt.event.transaction.nonce == n
                    &&& receipt.event.transaction.token == token
                    &&& receipt.event.transaction.amount == net
                    &&& receipt.event.transaction.recipient == from
                    &&& receipt.event.transaction.destination_chain == destination_chain
                    &&& receipt.event.transaction.destination_address@ == destination_address@
                    &&& receipt.event.transaction.timestamp == now
                },
            },
    {
        if self.guard_active {
            return Err(BridgeError::ReentrancyDetected);
        }
        if amount <= 0 {
            return Err(BridgeError::AmountMustBePositive);
        }
        if destination_address.len() == 0 {
            return Err(BridgeError::InvalidInput);
        }
        let supported = match self.supported_chains.get(destination_chain as u64) {
            Some(b) => *b,
            None => false,
        };
        if !supported {
            return Err(BridgeError::DestinationChainNotSupported);
        }
        let token = match self.token {
            Some(t) => t,
            None => return Err(BridgeError::NotInitialized),
        };
        let fee = match self.bridge_fee {
            Some(f) => f,
            None => 0,
        };
        let fee_recipient = match self.fee_recipient {
            Some(f) => f,
            None => 0,
        };
        let charged = fee > 0 && fee < amount;
        let amount_after_fee = if charged { amount - fee } else { amount };

        let nonce = self.nonce + 1;
        self.nonce = nonce;

        let event_tx = BridgeTransaction {
            nonce,
            token,
            amount: amount_after_fee,
            recipient: from,
            destination_chain,
            destination_address: copy_bytes(&destination_address),
            timestamp: now,
        };
        let bridge_tx = BridgeTransaction {
            nonce,
            token,
            amount: amount_after_fee,
            recipient: from,
            destination_chain,
            destination_address,
            timestamp: now,
        };
        self.transactions.insert(nonce, bridge_tx);
        self.retry_counts.insert(nonce, 0);
        self.last_retry.insert(nonce, now);

        let mut transfers: Vec<Transfer> = Vec::new();
        transfers.push(Transfer { token, from: Holder::Account(from), to: Holder::Contract, amount });
        if charged {
            transfers.push(Transfer { token, from: Holder::Contract, to: Holder::Account(fee_recipient), amount: fee });
        }
        Ok(BridgeOutReceipt { nonce, transfers, event: BridgeInitiatedEvent { nonce, transaction: event_tx } })
    }

    /// Whether every signer in `signers` is a validator.
    pub open spec fn all_validators(&self, signers: Seq<AccountId>) -> bool {
        forall|i: int| 0 <= i < signers.len() ==> #[trigger] flag_set(self.validators@, signers[i])
    }

    /// The minimum number of signatures (1 when unset).
    pub open spec fn min_validators_of(&self) -> u32 {
        match self.min_validators { Some(m) => m, None => 1 }
    }

    /// The error `complete_bridge` refuses with before it records the nonce.
    pub open spec fn completion_precheck(&self, message: CrossChainMessage, signers: Seq<AccountId>) -> Option<BridgeError> {
        if self.guard_active {
            Some(BridgeError::ReentrancyDetected)
        } else if signers.len() < self.min_validators_of() {
            Some(BridgeError::InsufficientValidatorSignatures)
        } else if message.amount <= 0 {
            Some(BridgeError::AmountMustBePositive)
        } else if !self.all_validators(signers) {
            Some(BridgeError::InvalidValidatorSignature)
        } else if flag_set(self.processed_nonces@, message.nonce) {
            Some(BridgeError::NonceAlreadyProcessed)
        } else {
            None
        }
    }

    /// Complete an incoming transfer signed by `validator_signatures`.
    /// Checks, in order: the re-entrancy guard, the signature count against
    /// the minimum, a positive amount, that every signer is a validator, and
    /// that the nonce was not completed before, then that the bridge is
    /// initialised and the message names the bridged token.  A refused call
    /// changes nothing (the host rolls a failed invocation back).  On success
    /// the nonce is recorded as processed, the pending record for the nonce
    /// and its retry data are removed and the caller is asked to mint
    /// `amount` to the recipient.
    pub fn complete_bridge(&mut self, message: CrossChainMessage, validator_signatures: &Vec<AccountId>) -> (r: Result<BridgeCompletion, BridgeError>)
        requires
            old(self).wf(),
        ensures
            final(self).wf(),
            match old(self).completion_precheck(message, validator_signatures@) {
                Some(e) => r matches Err(e2) && e2 == e && *final(self) == *old(self),
                None => if old(self).token is None {
                    r matches Err(e) && e == BridgeError::NotInitialized && *final(self) == *old(self)
                } else if message.token != old(self).token->0 {
                    r matches Err(e) && e == BridgeError::TokenMismatch && *final(self) == *old(self)
                } else {
                    &&& r matches Ok(c) && c.mint_token == message.token && c.mint_to == message.recipient
                        && c.mint_amount == message.amount && c.event.nonce == message.nonce
                        && c.event.message == message
                    &&& final(self).processed_nonces@ == old(self).processed_nonces@.insert(message.nonce, true)
                    &&& final(self).transactions@ == old(self).transactions@.remove(message.nonce)
                    &&& final(self).retry_counts@ == old(self).retry_counts@.remove(message.nonce)
                    &&& final(self).last_retry@ == old(self).last_retry@.remove(message.nonce)
                    &&& final(self).failures@ == old(self).failures@.remove(message.nonce)
                    &&& final(self).token == old(self).token
                    &&& final(self).admin == old(self).admin
                    &&& final(self).min_validators == old(self).min_validators
                    &&& final(self).bridge_fee == old(self).bridge_fee
                    &&& final(self).fee_recipient == old(self).fee_recipient
                    &&& final(self).validators == old(self).validators
                    &&& final(self).supported_chains == old(self).supported_chains
                    &&& final(self).nonce == old(self).nonce
                    &&& final(self).guard_active == old(self).guard_active
                },
            },
    {
        if self.guard_active {
            return Err(BridgeError::ReentrancyDetected);
        }
        let min_validators = match self.min_validators {
            Some(m) => m,
            None => 1,
        };
        if (validator_signatures.len() as u64) < min_validators as u64 {
            return Err(BridgeError::InsufficientValidatorSignatures);
        }
        if message.amount <= 0 {
            return Err(BridgeError::AmountMustBePositive);
        }
        let mut i: usize = 0;
        while i < validator_signatures.len()
            invariant
                self.wf(),
                *self == *old(self),
                !old(self).guard_active,
                validator_signatures@.len() >= old(self).min_validators_of(),
                message.amount > 0,
                i <= validator_signatures@.len(),
                forall|j: int| 0 <= j < i ==> #[trigger] flag_set(self.validators@, validator_signatures@[j]),
            decreases validator_signatures@.len() - i,
        {
            let is_validator = match self.validators.get(validator_signatures[i]) {
                Some(b) => *b,
                None => false,
            };
            if !is_validator {
                assert(!flag_set(self.validators@, validator_signatures@[i as int]));
                return Err(BridgeError::InvalidValidatorSignature);
            }
            i = i + 1;
        }
        let already = match self.processed_nonces.get(message.nonce) {
            Some(b) => *b,
            None => false,
        };
        if already {
            return Err(BridgeError::NonceAlreadyProcessed);
        }
        let token = match self.token {
            Some(t) => t,
            None => return Err(BridgeError::NotInitialized),
        };
        if message.token != token {
            return Err(BridgeError::TokenMismatch);
        }
        self.processed_nonces.insert(message.nonce, true);
        self.transactions.remove(message.nonce);
        self.retry_counts.remove(message.nonce);
        self.last_retry.remove(message.nonce);
        self.failures.remove(message.nonce);
        let nonce = message.nonce;
        let mint_to = message.recipient;
        let mint_amount = message.amount;
        Ok(BridgeCompletion {
            mint_token: token,
            mint_to,
            mint_amount,
            event: BridgeCompletedEvent { nonce, message },
        })
    }

    /// Record why a pending transaction failed.  Refused when `reason` is
    /// empty or no transaction is pending under `nonce`.
    pub fn mark_bridge_failed(&mut self, nonce: u64, reason: Vec<u8>) -> (r: Result<(), BridgeError>)
        requires
            old(self).wf(),
        ensures
            final(self).wf(),
            reason@.len() == 0 ==> r == Err::<(), BridgeError>(BridgeError::InvalidInput) && *final(self) == *old(self),
            reason@.len() != 0 && !old(self).transactions@.contains_key(nonce) ==>
                r == Err::<(), BridgeError>(BridgeError::BridgeTransactionNotFound) && *final(self) == *old(self),
            reason@.len() != 0 && old(self).transactions@.contains_key(nonce) ==>
                r is Ok && *final(self) == (Bridge { failures: final(self).failures, ..*old(self) })
                && final(self).failures@ == old(self).failures@.insert(nonce, reason),
    {
        if reason.len() == 0 {
            return Err(BridgeError::InvalidInput);
        }
        if !self.transactions.contains_key(nonce) {
            return Err(BridgeError::BridgeTransactionNotFound);
        }
        self.failures.insert(nonce, reason);
        Ok(())
    }

    /// The error `retry_bridge` refuses with at time `now`, if any.
    pub open spec fn retry_error(&self, nonce: u64, now: u64) -> Option<BridgeError> {
        if !self.transactions@.contains_key(nonce) {
            Some(BridgeError::BridgeTransactionNotFound)
        } else {
            let tx = self.transactions@[nonce];
            let count = self.retry_count_of(nonce);
            let last = if self.last_retry_of(nonce) == 0 { tx.timestamp } else { self.last_retry_of(nonce) };
            if sat_sub(now, tx.timestamp) >= BRIDGE_TIMEOUT_SECONDS {
                Some(BridgeError::PacketTimeout)
            } else if count >= MAX_BRIDGE_RETRY_ATTEMPTS {
                Some(BridgeError::RetryLimitExceeded)
            } else if now < sat_add(last, retry_delay(count)) {
                Some(BridgeError::RetryBackoffActive)
            } else {
                None
            }
        }
    }

    /// Retry a pending transaction at time `now`.  Refused once the
    /// transaction is older than the timeout, after `MAX_BRIDGE_RETRY_ATTEMPTS`
    /// retries, or before `300 * 2^count` seconds have passed since the last
    /// retry (or since creation).  On success the count goes up by one, the
    /// retry time becomes `now`, any failure record is cleared, and the new
    /// count is returned.
    pub fn retry_bridge(&mut self, nonce: u64, now: u64) -> (r: Result<BridgeRetryEvent, BridgeError>)
        requires
            old(self).wf(),
        ensures
            final(self).wf(),
            match old(self).retry_error(nonce, now) {
                Some(e) => r matches Err(e2) && e2 == e && *final(self) == *old(self),
                None => {
                    let count = (old(self).retry_count_of(nonce) + 1) as u32;
                    &&& r matches Ok(ev) && ev.nonce == nonce && ev.retry_count == count && ev.retried_at == now
                    &&& final(self).retry_counts@ == old(self).retry_counts@.insert(nonce, count)
                    &&& final(self).last_retry@ == old(self).last_retry@.insert(nonce, now)
                    &&& final(self).failures@ == old(self).failures@.remove(nonce)
                    &&& *final(self) == (Bridge {
                        retry_counts: final(self).retry_counts,
                        last_retry: final(self).last_retry,
                        failures: final(self).failures,
                        ..*old(self)
                    })
                },
            },
    {
        let (timestamp, retry_count, stored_last) = match self.transactions.get(nonce) {
            Some(tx) => {
                let c = match self.retry_counts.get(nonce) { Some(c) => *c, None => 0 };
                let l = match self.last_retry.get(nonce) { Some(l) => *l, None => 0 };
                (tx.timestamp, c, l)
            },
            None => return Err(BridgeError::BridgeTransactionNotFound),
        };
        if now.saturating_sub(timestamp) >= BRIDGE_TIMEOUT_SECONDS {
            return Err(BridgeError::PacketTimeout);
        }
        if retry_count >= MAX_BRIDGE_RETRY_ATTEMPTS {
            return Err(BridgeError::RetryLimitExceeded);
        }
        let last_retry_at = if stored_last == 0 { timestamp } else { stored_last };
        let backoff_multiplier = 1u64 << retry_count;
        assert(backoff_multiplier == backoff_factor(retry_count)) by (bit_vector)
            requires retry_count < 5u32, backoff_multiplier == 1u64 << retry_count;
        let retry_delay = match BRIDGE_RETRY_DELAY_BASE_SECONDS.checked_mul(backoff_multiplier) {
            Some(d) => d,
            None => u64::MAX,
        };
        let next_allowed_retry = last_retry_at.saturating_add(retry_delay);
        if now < next_allowed_retry {
            return Err(BridgeError::RetryBackoffActive);
        }
        let updated_retry_count = retry_count + 1;
        self.retry_counts.insert(nonce, updated_retry_count);
        self.last_retry.insert(nonce, now);
        self.failures.remove(nonce);
        Ok(BridgeRetryEvent { nonce, retry_count: updated_retry_count, retried_at: now })
    }

    /// The error `cancel_bridge` refuses with at time `now`, if any.
    pub open spec fn cancel_error(&self, nonce: u64, now: u64) -> Option<BridgeError> {
        if self.guard_active {
            Some(BridgeError::ReentrancyDetected)
        } else if !self.transactions@.contains_key(nonce) {
            Some(BridgeError::BridgeTransactionNotFound)
        } else if sat_sub(now, self.transactions@[nonce].timestamp) < BRIDGE_TIMEOUT_SECONDS
            && !self.failures@.contains_key(nonce) {
            Some(BridgeError::TimeoutNotReached)
        } else if self.token is None {
            Some(BridgeError::NotInitialized)
        } else {
            None
        }
    }

    /// Cancel a pending transaction and refund its recorded amount to its
    /// sender.  Allowed once the transaction has failed or is older than
    /// `BRIDGE_TIMEOUT_SECONDS`.  The record and its retry data are removed.
    pub fn cancel_bridge(&mut self, nonce: u64, now: u64) -> (r: Result<Transfer, BridgeError>)
        requires
            old(self).wf(),
        ensures
            final(self).wf(),
            match old(self).cancel_error(nonce, now) {
                Some(e) => r matches Err(e2) && e2 == e && *final(self) == *old(self),
                None => {
                    let tx = old(self).transactions@[nonce];
                    &&& r == Ok::<Transfer, BridgeError>(Transfer {
                        token: old(self).token->0,
                        from: Holder::Contract,
                        to: Holder::Account(tx.recipient),
                        amount: tx.amount,
                    })
                    &&& final(self).transactions@ == old(self).transactions@.remove(nonce)
                    &&& final(self).retry_counts@ == old(self).retry_counts@.remove(nonce)
                    &&& final(self).last_retry@ == old(self).last_retry@.remove(nonce)
                    &&& final(self).failures@ == old(self).failures@.remove(nonce)
                    &&& *final(self) == (Bridge {
                        transactions: final(self).transactions,
                        retry_counts: final(self).retry_counts,
                        last_retry: final(self).last_retry,
                        failures: final(self).failures,
                        ..*old(self)
                    })
                },
            },
    {
        if self.guard_active {
            return Err(BridgeError::ReentrancyDetected);
        }
        let (timestamp, recipient, amount) = match self.transactions.get(nonce) {
            Some(tx) => (tx.timestamp, tx.recipient, tx.amount),
            None => return Err(BridgeError::BridgeTransactionNotFound),
        };
        let elapsed = now.saturating_sub(timestamp);
        let has_failed = self.failures.contains_key(nonce);
        if elapsed < BRIDGE_TIMEOUT_SECONDS && !has_failed {
            return Err(BridgeError::TimeoutNotReached);
        }
        let token = match self.token {
            Some(t) => t,
            None => return Err(BridgeError::NotInitialized),
        };
        self.transactions.remove(nonce);
        self.retry_counts.remove(nonce);
        self.last_retry.remove(nonce);
        self.failures.remove(nonce);
        Ok(Transfer { token, from: Holder::Contract, to: Holder::Account(recipient), amount })
    }

    /// The same as `cancel_bridge`.
    pub fn refund_bridge_transaction(&mut self, nonce: u64, now: u64) -> (r: Result<Transfer, BridgeError>)
        requires
            old(self).wf(),
        ensures
            final(self).wf(),
            match old(self).cancel_error(nonce, now) {
                Some(e) => r matches Err(e2) && e2 == e && *final(self) == *old(self),
                None => {
                    let tx = old(self).transactions@[nonce];
                    &&& r == Ok::<Transfer, BridgeError>(Transfer {
                        token: old(self).token->0,
                        from: Holder::Contract,
                        to: Holder::Account(tx.recipient),
                        amount: tx.amount,
                    })
                    &&& final(self).transactions@ == old(self).transactions@.remove(nonce)
                    &&& final(self).failures@ == old(self).failures@.remove(nonce)
                },
            },
    {
        self.cancel_bridge(nonce, now)
    }

    /// Mark `validator` as a validator (the admin authorizes the call).
    /// Refused when the bridge has no admin yet.
    pub fn add_validator(&mut self, validator: AccountId) -> (r: Result<(), BridgeError>)
        requires
            old(self).wf(),
        ensures
            final(self).wf(),
            old(self).admin is None ==> r == Err::<(), BridgeError>(BridgeError::NotInitialized) && *final(self) == *old(self),
            old(self).admin is Some ==> r is Ok && final(self).validators@ == old(self).validators@.insert(validator, true)
                && *final(self) == (Bridge { validators: final(self).validators, ..*old(self) }),
    {
        if self.admin.is_none() {
            return Err(BridgeError::NotInitialized);
        }
        self.validators.insert(validator, true);
        Ok(())
    }

    /// Clear `validator`'s flag (the admin authorizes the call).
    pub fn remove_validator(&mut self, validator: AccountId) -> (r: Result<(), BridgeError>)
        requires
            old(self).wf(),
        ensures
            final(self).wf(),
            old(self).admin is None ==> r == Err::<(), BridgeError>(BridgeError::NotInitialized) && *final(self) == *old(self),
            old(self).admin is Some ==> r is Ok && final(self).validators@ == old(self).validators@.insert(validator, false)
                && *final(self) == (Bridge { validators: final(self).validators, ..*old(self) }),
    {
        if self.admin.is_none() {
            return Err(BridgeError::NotInitialized);
        }
        self.validators.insert(validator, false);
        Ok(())
    }

    /// Support `chain_id` as a destination (the admin authorizes the call).
    pub fn add_supported_chain(&mut self, chain_id: u32) -> (r: Result<(), BridgeError>)
        requires
            old(self).wf(),
        ensures
            final(self).wf(),
            old(self).admin is None ==> r == Err::<(), BridgeError>(BridgeError::NotInitialized) && *final(self) == *old(self),
            old(self).admin is Some ==> r is Ok && final(self).supported_chains@ == old(self).supported_chains@.insert(chain_id as u64, true)
                && *final(self) == (Bridge { supported_chains: final(self).supported_chains, ..*old(self) }),
    {
        if self.admin.is_none() {
            return Err(BridgeError::NotInitialized);
        }
        self.supported_chains.insert(chain_id as u64, true);
        Ok(())
    }

    /// Stop supporting `chain_id` as a destination (the admin authorizes the call).
    pub fn remove_supported_chain(&mut self, chain_id: u32) -> (r: Result<(), BridgeError>)
        requires
            old(self).wf(),
        ensures
            final(self).wf(),
            old(self).admin is None ==> r == Err::<(), BridgeError>(BridgeError::NotInitialized) && *final(self) == *old(self),
            old(self).admin is Some ==> r is Ok && final(self).supported_chains@ == old(self).supported_chains@.insert(chain_id as u64, false)
                && *final(self) == (Bridge { supported_chains: final(self).supported_chains, ..*old(self) }),
    {
        if self.admin.is_none() {
            return Err(BridgeError::NotInitialized);
        }
        self.supported_chains.insert(chain_id as u64, false);
        Ok(())
    }

    /// Set the flat bridge fee; a negative fee is refused.
    pub fn set_bridge_fee(&mut self, fee: i128) -> (r: Result<(), BridgeError>)
        requires
            old(self).wf(),
        ensures
            final(self).wf(),
            old(self).admin is None ==> r == Err::<(), BridgeError>(BridgeError::NotInitialized) && *final(self) == *old(self),
            old(self).admin is Some && fee < 0 ==> r == Err::<(), BridgeError>(BridgeError::FeeCannotBeNegative) && *final(self) == *old(self),
            old(self).admin is Some && fee >= 0 ==> r is Ok && *final(self) == (Bridge { bridge_fee: Some(fee), ..*old(self) }),
    {
        if self.admin.is_none() {
            return Err(BridgeError::NotInitialized);
        }
        if fee < 0 {
            return Err(BridgeError::FeeCannotBeNegative);
        }
        self.bridge_fee = Some(fee);
        Ok(())
    }

    /// Set the account that receives bridge fees.
    pub fn set_fee_recipient(&mut self, fee_recipient: AccountId) -> (r: Result<(), BridgeError>)
        requires
            old(self).wf(),
        ensures
            final(self).wf(),
            old(self).admin is None ==> r == Err::<(), BridgeError>(BridgeError::NotInitialized) && *final(self) == *old(self),
            old(self).admin is Some ==> r is Ok && *final(self) == (Bridge { fee_recipient: Some(fee_recipient), ..*old(self) }),
    {
        if self.admin.is_none() {
            return Err(BridgeError::NotInitialized);
        }
        self.fee_recipient = Some(fee_recipient);
        Ok(())
    }

    /// Set the minimum number of validator signatures; 0 is refused.
    pub fn set_min_validators(&mut self, min_validators: u32) -> (r: Result<(), BridgeError>)
        requires
            old(self).wf(),
        ensures
            final(self).wf(),
            old(self).admin is None ==> r == Err::<(), BridgeError>(BridgeError::NotInitialized) && *final(self) == *old(self),
            old(self).admin is Some && min_validators == 0 ==> r == Err::<(), BridgeError>(BridgeError::MinimumValidatorsMustBeAtLeastOne) && *final(self) == *old(self),
            old(self).admin is Some && min_validators != 0 ==> r is Ok && *final(self) == (Bridge { min_validators: Some(min_validators), ..*old(self) }),
    {
        if self.admin.is_none() {
            return Err(BridgeError::NotInitialized);
        }
        if min_validators == 0 {
            return Err(BridgeError::MinimumValidatorsMustBeAtLeastOne);
        }
        self.min_validators = Some(min_validators);
        Ok(())
    }

    /// The pending transaction under `nonce`, if any.
    pub fn get_bridge_transaction(&self, nonce: u64) -> (r: Option<&BridgeTransaction>)
        requires
            self.wf(),
        ensures
            match r {
                Some(tx) => self.transactions@.contains_key(nonce) && *tx == self.transactions@[nonce],
                None => !self.transactions@.contains_key(nonce),
            },
    {
        self.transactions.get(nonce)
    }

    /// Whether `chain_id` is a supported destination.
    pub fn is_chain_supported(&self, chain_id: u32) -> (b: bool)
        requires
            self.wf(),
        ensures
            b == flag_set(self.supported_chains@, chain_id as u64),
    {
        match self.supported_chains.get(chain_id as u64) {
            Some(b) => *b,
            None => false,
        }
    }

    /// Whether `address` is a validator.
    pub fn is_validator(&self, address: AccountId) -> (b: bool)
        requires
            self.wf(),
        ensures
            b == flag_set(self.validators@, address),
    {
        match self.validators.get(address) {
            Some(b) => *b,
            None => false,
        }
    }

    /// The last nonce handed out.
    pub fn get_nonce(&self) -> (n: u64)
        ensures
            n == self.nonce,
    {
        self.nonce
    }

    /// The bridge fee (0 when unset).
    pub fn get_bridge_fee(&self) -> (f: i128)
        ensures
            f == self.fee_of(),
    {
        match self.bridge_fee {
            Some(f) => f,
            None => 0,
        }
    }

    /// The bridged token.
    pub fn get_token(&self) -> (t: AccountId)
        requires
            self.token is Some,
        ensures
            t == self.token->0,
    {
        match self.token {
            Some(t) => t,
            None => 0,
        }
    }

    /// The bridge administrator.
    pub fn get_admin(&self) -> (a: AccountId)
        requires
            self.admin is Some,
        ensures
            a == self.admin->0,
    {
        match self.admin {
            Some(a) => a,
            None => 0,
        }
    }
}

/// Replay protection: once an incoming nonce has been completed, every later
/// completion with the same nonce is refused, whatever its signatures.
pub proof fn law_completed_nonce_is_never_completed_again(
    before: Bridge,
    after: Bridge,
    message: CrossChainMessage,
    later: CrossChainMessage,
    signers: Seq<AccountId>,
)
    requires
        after.processed_nonces@ == before.processed_nonces@.insert(message.nonce, true),
        later.nonce == message.nonce,
    ensures
        after.completion_precheck(later, signers) is Some,
{
}

/// A bridge-out splits the deposited amount exactly: the recorded amount
/// plus the fee passed on equals the deposit, and the recorded amount stays
/// positive.
pub proof fn law_bridge_out_splits_amount_exactly(b: Bridge, amount: i128)
    requires
        amount > 0,
    ensures
        ({
            let fee = if b.charges_fee(amount) { b.fee_of() as int } else { 0 };
            let net = if b.charges_fee(amount) { amount - b.fee_of() } else { amount as int };
            &&& net + fee == amount
            &&& 0 < net <= amount
            &&& fee >= 0
        }),
{
}

/// A retry never takes a transaction past `MAX_BRIDGE_RETRY_ATTEMPTS`.
pub proof fn law_retry_count_stays_within_limit(b: Bridge, nonce: u64, now: u64)
    requires
        b.retry_error(nonce, now) is None,
    ensures
        b.retry_count_of(nonce) + 1 <= MAX_BRIDGE_RETRY_ATTEMPTS,
{
}

/// A pending transaction is retried only while it is younger than
/// `BRIDGE_TIMEOUT_SECONDS`: once that much time has passed since it was
/// recorded, a retry is refused as timed out.
pub proof fn law_timed_out_transaction_is_not_retried(b: Bridge, nonce: u64, now: u64)
    requires
        b.transactions@.contains_key(nonce),
    ensures
        now - b.transactions@[nonce].timestamp >= BRIDGE_TIMEOUT_SECONDS
            ==> b.retry_error(nonce, now) == Some(BridgeError::PacketTimeout),
        b.retry_error(nonce, now) is None ==> now < b.transactions@[nonce].timestamp + BRIDGE_TIMEOUT_SECONDS,
{
}

/// The back-off doubles with every retry.
pub proof fn law_retry_delay_doubles(count: u32)
    requires
        count + 1 < MAX_BRIDGE_RETRY_ATTEMPTS,
    ensures
        retry_delay((count + 1) as u32) == 2 * retry_delay(count),
{
}

/// A pending transaction that has neither failed nor timed out cannot be
/// cancelled.
pub proof fn law_no_refund_before_failure_or_timeout(b: Bridge, nonce: u64, now: u64)
    requires
        !b.guard_active,
        b.transactions@.contains_key(nonce),
        !b.failures@.contains_key(nonce),
        sat_sub(now, b.transactions@[nonce].timestamp) < BRIDGE_TIMEOUT_SECONDS,
    ensures
        b.cancel_error(nonce, now) == Some(BridgeError::TimeoutNotReached),
{
}

} // verus!
