//! Recovery from failed network operations: retries with exponential
//! back-off, a retry limit after which the operation fails for good (and a
//! fallback is switched on), and notices to the user of each retry.
use vstd::prelude::*;
use crate::errors::BridgeError;
use crate::id_map::IdMap;
use crate::types::AccountId;

verus! {

/// Retries allowed by default.
pub const MAX_RETRY_ATTEMPTS: u32 = 5;
/// First back-off in seconds.
pub const INITIAL_BACKOFF_SECONDS: u64 = 60;
/// Longest back-off in seconds.
pub const MAX_BACKOFF_SECONDS: u64 = 3600;
/// Factor of each back-off step.
pub const BACKOFF_MULTIPLIER: u64 = 2;
/// Failures that trip the circuit breaker by default.
pub const CIRCUIT_BREAKER_THRESHOLD: u32 = 10;

/// Retry parameters.
#[derive(Copy, Clone, Debug, PartialEq, Eq, Structural)]
pub struct RecoveryConfig {
    pub max_retries: u32,
    pub initial_backoff: u64,
    pub max_backoff: u64,
    pub backoff_multiplier: u64,
    pub circuit_breaker_threshold: u32,
    pub fallback_enabled: bool,
}

/// Where a recovered operation stands.
#[derive(Copy, Clone, Debug, PartialEq, Eq, Structural)]
pub enum OperationStatus {
    Pending,
    InProgress,
    Failed,
    Retrying,
    Completed,
    FallbackActive,
}

/// A failed operation under recovery.
#[derive(Clone, Debug)]
pub struct OperationState {
    pub operation_id: u64,
    pub operation_type: Vec<u8>,
    pub user: AccountId,
    pub retry_count: u32,
    pub last_attempt: u64,
    pub next_retry: u64,
    pub status: OperationStatus,
    pub error_message: Vec<u8>,
}

/// A fallback switched on for an operation.
#[derive(Clone, Debug)]
pub struct FallbackMechanism {
    pub operation_id: u64,
    pub fallback_type: Vec<u8>,
    pub activated_at: u64,
    pub original_params: Vec<u8>,
    pub fallback_params: Vec<u8>,
}

/// The configuration `initialize` installs.
pub open spec fn default_recovery_config() -> RecoveryConfig {
    RecoveryConfig {
        max_retries: MAX_RETRY_ATTEMPTS,
        initial_backoff: INITIAL_BACKOFF_SECONDS,
        max_backoff: MAX_BACKOFF_SECONDS,
        backoff_multiplier: BACKOFF_MULTIPLIER,
        circuit_breaker_threshold: CIRCUIT_BREAKER_THRESHOLD,
        fallback_enabled: true,
    }
}

/// The back-off after `n` more steps from `delay`: each step multiplies by
/// `mult`, and the first step past `max` stops at `max`.
pub open spec fn backoff_from(delay: u64, mult: u64, max: u64, n: nat) -> u64
    decreases n,
{
    if n == 0 {
        delay
    } else if delay * mult > max {
        max
    } else {
        backoff_from((delay * mult) as u64, mult, max, (n - 1) as nat)
    }
}

/// No multiplication of those steps leaves `u64`.
pub open spec fn backoff_fits(delay: u64, mult: u64, max: u64, n: nat) -> bool
    decreases n,
{
    n == 0 || (delay * mult <= u64::MAX && (delay * mult > max || backoff_fits((delay * mult) as u64, mult, max, (n - 1) as nat)))
}

/// The back-off before retry number `retry_count` under `c`.
pub open spec fn backoff(c: RecoveryConfig, retry_count: u32) -> u64 {
    backoff_from(c.initial_backoff, c.backoff_multiplier, c.max_backoff, retry_count as nat)
}

/// Recovery state.
#[derive(Clone)]
pub struct NetworkRecovery {
    pub config: Option<RecoveryConfig>,
    pub operations: IdMap<OperationState>,
    /// Operation ids each user was told about, in order.
    pub notifications: IdMap<Vec<u64>>,
    pub fallbacks: IdMap<FallbackMechanism>,
    pub fallback_active: bool,
}

impl NetworkRecovery {
    /// Tables are well formed.
    pub open spec fn wf(&self) -> bool {
        self.operations.wf() && self.notifications.wf() && self.fallbacks.wf()
    }

    /// The retry count the next failure of `operation_id` gets.
    pub open spec fn next_retry_count(&self, operation_id: u64) -> int {
        if self.operations@.contains_key(operation_id) { self.operations@[operation_id].retry_count + 1 } else { 0 }
    }

    /// The notices of `user`.
    pub open spec fn notices(&self, user: AccountId) -> Seq<u64> {
        if self.notifications@.contains_key(user) { self.notifications@[user]@ } else { Seq::empty() }
    }

    /// Nothing set up.
    pub fn new() -> (r: Self)
        ensures
            r.wf(),
            r.config is None,
            r.operations@ == Map::<u64, OperationState>::empty(),
            r.notifications@ == Map::<u64, Vec<u64>>::empty(),
            r.fallbacks@ == Map::<u64, FallbackMechanism>::empty(),
            !r.fallback_active,
    {
        NetworkRecovery {
            config: None,
            operations: IdMap::new(),
            notifications: IdMap::new(),
            fallbacks: IdMap::new(),
            fallback_active: false,
        }
    }

    /// Install the default configuration with no operations, notices or
    /// fallback.  Refused once configured.
    pub fn initialize(&mut self) -> (r: Result<(), BridgeError>)
        requires
            old(self).wf(),
        ensures
            final(self).wf(),
            old(self).config is Some ==> r == Err::<(), BridgeError>(BridgeError::AlreadyInitialized) && *final(self) == *old(self),
            old(self).config is None ==> {
                &&& r is Ok
                &&& final(self).config == Some(default_recovery_config())
                &&& final(self).operations@ == Map::<u64, OperationState>::empty()
                &&& final(self).notifications@ == Map::<u64, Vec<u64>>::empty()
                &&& final(self).fallbacks == old(self).fallbacks
                &&& !final(self).fallback_active
            },
    {
        if self.config.is_some() {
            return Err(BridgeError::AlreadyInitialized);
        }
        self.config = Some(RecoveryConfig {
            max_retries: MAX_RETRY_ATTEMPTS,
            initial_backoff: INITIAL_BACKOFF_SECONDS,
            max_backoff: MAX_BACKOFF_SECONDS,
            backoff_multiplier: BACKOFF_MULTIPLIER,
            circuit_breaker_threshold: CIRCUIT_BREAKER_THRESHOLD,
            fallback_enabled: true,
        });
        self.operations = IdMap::new();
        self.notifications = IdMap::new();
        self.fallback_active = false;
        Ok(())
    }

    /// The back-off before retry number `retry_count`.
    pub fn calculate_backoff(&self, retry_count: u32) -> (d: u64)
        requires
            self.config is Some,
            ({
                let c = self.config->0;
                backoff_fits(c.initial_backoff, c.backoff_multiplier, c.max_backoff, retry_count as nat)
            }),
        ensures
            d == backoff(self.config->0, retry_count),
    {
        let config = match self.config {
            Some(c) => c,
            None => RecoveryConfig {
                max_retries: 0, initial_backoff: 0, max_backoff: 0, backoff_multiplier: 0,
                circuit_breaker_threshold: 0, fallback_enabled: false,
            },
        };
        let mut delay = config.initial_backoff;
        let mut i: u32 = 0;
        while i < retry_count
            invariant
                i <= retry_count,
                self.config == Some(config),
                backoff_from(delay, config.backoff_multiplier, config.max_backoff, (retry_count - i) as nat)
                    == backoff(config, retry_count),
                backoff_fits(delay, config.backoff_multiplier, config.max_backoff, (retry_count - i) as nat),
            decreases retry_count - i,
        {
            let ghost k = (retry_count - i) as nat;
            let ghost d0 = delay;
            assert(backoff_from(d0, config.backoff_multiplier, config.max_backoff, k) == if d0 * config.backoff_multiplier > config.max_backoff {
                config.max_backoff
            } else {
                backoff_from((d0 * config.backoff_multiplier) as u64, config.backoff_multiplier, config.max_backoff, (k - 1) as nat)
            });
            delay = delay * config.backoff_multiplier;
            if delay > config.max_backoff {
                delay = config.max_backoff;
                return delay;
            }
            i = i + 1;
        }
        assert(backoff_from(delay, config.backoff_multiplier, config.max_backoff, 0) == delay);
        delay
    }

    /// Record a failure of `operation_id` (of `operation_type`, for `user`)
    /// at `now`.  The retry count starts at 0 and grows with each failure;
    /// at the limit the operation fails for good, the fallback switches on
    /// when enabled, and `RetryLimitExceeded` is returned.  Below it the
    /// operation waits out its back-off and the user is told.
    pub fn register_failed_operation(
        &mut self,
        operation_id: u64,
        operation_type: Vec<u8>,
        user: AccountId,
        error_message: Vec<u8>,
        now: u64,
    ) -> (r: Result<(), BridgeError>)
        requires
            old(self).wf(),
            old(self).config is Some,
            old(self).next_retry_count(operation_id) <= u32::MAX,
            ({
                let c = old(self).config->0;
                let n = old(self).next_retry_count(operation_id);
                n < c.max_retries ==> {
                    &&& backoff_fits(c.initial_backoff, c.backoff_multiplier, c.max_backoff, n as nat)
                    &&& now + backoff(c, n as u32) <= u64::MAX
                }
            }),
        ensures
            final(self).wf(),
            final(self).config == old(self).config,
            final(self).fallbacks == old(self).fallbacks,
            ({
                let c = old(self).config->0;
                let n = old(self).next_retry_count(operation_id) as u32;
                let op = final(self).operations@[operation_id];
                &&& final(self).operations@.dom() == old(self).operations@.dom().insert(operation_id)
                &&& forall|k: u64| k != operation_id && #[trigger] old(self).operations@.contains_key(k)
                    ==> final(self).operations@[k] == old(self).operations@[k]
                &&& op.operation_id == operation_id && op.operation_type == operation_type && op.user == user
                &&& op.retry_count == n && op.last_attempt == now && op.error_message == error_message
                &&& if n >= c.max_retries {
                    &&& r == Err::<(), BridgeError>(BridgeError::RetryLimitExceeded)
                    &&& op.status == OperationStatus::Failed && op.next_retry == 0
                    &&& final(self).fallback_active == (old(self).fallback_active || c.fallback_enabled)
                    &&& final(self).notifications == old(self).notifications
                } else {
                    &&& r is Ok
                    &&& op.status == OperationStatus::Retrying
                    &&& op.next_retry == now + backoff(c, n)
                    &&& final(self).fallback_active == old(self).fallback_active
                    &&& final(self).notices(user) == old(self).notices(user).push(operation_id)
                    &&& forall|u: AccountId| u != user ==> #[trigger] final(self).notices(u) == old(self).notices(u)
                }
            }),
    {
        let retry_count: u32 = match self.operations.get(operation_id) {
            Some(op) => op.retry_count + 1,
            None => 0,
        };
        let config = match self.config {
            Some(c) => c,
            None => { return Err(BridgeError::NotInitialized); },
        };
        if retry_count >= config.max_retries {
            if config.fallback_enabled {
                self.fallback_active = true;
            }
            let state = OperationState {
                operation_id,
                operation_type,
                user,
                retry_count,
                last_attempt: now,
                next_retry: 0,
                status: OperationStatus::Failed,
                error_message,
            };
            self.operations.insert(operation_id, state);
            return Err(BridgeError::RetryLimitExceeded);
        }
        let delay = self.calculate_backoff(retry_count);
        let next_retry = now + delay;
        let state = OperationState {
            operation_id,
            operation_type,
            user,
            retry_count,
            last_attempt: now,
            next_retry,
            status: OperationStatus::Retrying,
            error_message,
        };
        self.operations.insert(operation_id, state);
        self.notify_user_retry(operation_id, user);
        Ok(())
    }

    /// Whether `operation_id` may be retried at `now`: unknown operations
    /// may; known ones may not at the limit, and must wait out their
    /// back-off.
    pub fn can_retry(&self, operation_id: u64, now: u64) -> (r: Result<bool, BridgeError>)
        requires
            self.wf(),
            self.operations@.contains_key(operation_id) ==> self.config is Some,
        ensures
            !self.operations@.contains_key(operation_id) ==> r == Ok::<bool, BridgeError>(true),
            self.operations@.contains_key(operation_id) ==> {
                let op = self.operations@[operation_id];
                if op.retry_count >= self.config->0.max_retries {
                    r == Ok::<bool, BridgeError>(false)
                } else if now < op.next_retry {
                    r == Err::<bool, BridgeError>(BridgeError::RetryBackoffActive)
                } else {
                    r == Ok::<bool, BridgeError>(true)
                }
            },
    {
        match self.operations.get(operation_id) {
            Some(op) => {
                let max_retries = match self.config {
                    Some(c) => c.max_retries,
                    None => 0,
                };
                if op.retry_count >= max_retries {
                    return Ok(false);
                }
                if now < op.next_retry {
                    return Err(BridgeError::RetryBackoffActive);
                }
                Ok(true)
            },
            None => Ok(true),
        }
    }

    /// Mark `operation_id` completed, clearing its retry count; unknown
    /// operations are left alone.
    pub fn mark_completed(&mut self, operation_id: u64) -> (r: Result<(), BridgeError>)
        requires
            old(self).wf(),
        ensures
            final(self).wf(),
            r is Ok,
            !old(self).operations@.contains_key(operation_id) ==> *final(self) == *old(self),
            old(self).operations@.contains_key(operation_id) ==> {
                &&& final(self).operations@ == old(self).operations@.insert(operation_id, OperationState {
                    status: OperationStatus::Completed,
                    retry_count: 0,
                    ..old(self).operations@[operation_id]
                })
                &&& final(self).config == old(self).config
                &&& final(self).notifications == old(self).notifications
                &&& final(self).fallbacks == old(self).fallbacks
                &&& final(self).fallback_active == old(self).fallback_active
            },
    {
        if !self.operations.contains_key(operation_id) {
            return Ok(());
        }
        let mut op = self.operations.remove(operation_id).unwrap();
        op.status = OperationStatus::Completed;
        op.retry_count = 0;
        self.operations.insert(operation_id, op);
        proof {
            assert(self.operations@ =~= old(self).operations@.insert(operation_id, OperationState {
                status: OperationStatus::Completed,
                retry_count: 0,
                ..old(self).operations@[operation_id]
            }));
        }
        Ok(())
    }

    /// Switch the fallback on for `operation_id` at `now`, recording it.
    pub fn activate_fallback(&mut self, operation_id: u64, operation_type: Vec<u8>, now: u64) -> (r: Result<(), BridgeError>)
        requires
            old(self).wf(),
        ensures
            final(self).wf(),
            r is Ok,
            final(self).fallback_active,
            final(self).fallbacks@ == old(self).fallbacks@.insert(operation_id, FallbackMechanism {
                operation_id,
                fallback_type: operation_type,
                activated_at: now,
                original_params: final(self).fallbacks@[operation_id].original_params,
                fallback_params: final(self).fallbacks@[operation_id].fallback_params,
            }),
            final(self).fallbacks@[operation_id].original_params@.len() == 0,
            final(self).fallbacks@[operation_id].fallback_params@.len() == 0,
            final(self).operations == old(self).operations,
            final(self).notifications == old(self).notifications,
            final(self).config == old(self).config,
    {
        let fallback = FallbackMechanism {
            operation_id,
            fallback_type: operation_type,
            activated_at: now,
            original_params: Vec::new(),
            fallback_params: Vec::new(),
        };
        self.fallbacks.insert(operation_id, fallback);
        self.fallback_active = true;
        Ok(())
    }

    /// Tell `user` that `operation_id` will be retried.
    pub fn notify_user_retry(&mut self, operation_id: u64, user: AccountId)
        requires
            old(self).wf(),
        ensures
            final(self).wf(),
            final(self).notices(user) == old(self).notices(user).push(operation_id),
            forall|u: AccountId| u != user ==> #[trigger] final(self).notices(u) == old(self).notices(u),
            final(self).operations == old(self).operations,
            final(self).fallbacks == old(self).fallbacks,
            final(self).config == old(self).config,
            final(self).fallback_active == old(self).fallback_active,
    {
        let mut list = match self.notifications.remove(user) {
            Some(l) => l,
            None => Vec::new(),
        };
        list.push(operation_id);
        self.notifications.insert(user, list);
    }

    /// The state of `operation_id`, if any.
    pub fn get_operation_state(&self, operation_id: u64) -> (r: Option<&OperationState>)
        requires
            self.wf(),
        ensures
            match r {
                Some(op) => self.operations@.contains_key(operation_id) && *op == self.operations@[operation_id],
                None => !self.operations@.contains_key(operation_id),
            },
    {
        self.operations.get(operation_id)
    }

    /// The operations `user` was told about, in order.
    pub fn get_user_notifications(&self, user: AccountId) -> (r: Vec<u64>)
        requires
            self.wf(),
        ensures
            r@ == self.notices(user),
    {
        match self.notifications.get(user) {
            Some(l) => l.clone(),
            None => Vec::new(),
        }
    }

    /// Replace the configuration; at least one retry and a non-zero
    /// back-off are required.
    pub fn update_config(&mut self, config: RecoveryConfig) -> (r: Result<(), BridgeError>)
        ensures
            config.max_retries == 0 || config.initial_backoff == 0 ==>
                r == Err::<(), BridgeError>(BridgeError::InvalidInput) && *final(self) == *old(self),
            config.max_retries != 0 && config.initial_backoff != 0 ==>
                r is Ok && *final(self) == (NetworkRecovery { config: Some(config), ..*old(self) }),
    {
        if config.max_retries == 0 || config.initial_backoff == 0 {
            return Err(BridgeError::InvalidInput);
        }
        self.config = Some(config);
        Ok(())
    }

    /// Whether the fallback is on.
    pub fn is_fallback_active(&self) -> (b: bool)
        ensures
            b == self.fallback_active,
    {
        self.fallback_active
    }
}

/// The back-off never exceeds the longest one once it has started below it,
/// and never shrinks from one retry to the next.
pub proof fn law_backoff_is_capped_and_grows(delay: u64, mult: u64, max: u64, n: nat)
    requires
        delay <= max,
        mult >= 1,
    ensures
        backoff_from(delay, mult, max, n) <= max,
        delay <= backoff_from(delay, mult, max, n),
    decreases n,
{
    if n > 0 {
        assert(delay * mult >= delay) by (nonlinear_arith)
            requires mult >= 1;
        if delay * mult <= max {
            law_backoff_is_capped_and_grows((delay * mult) as u64, mult, max, (n - 1) as nat);
        }
    }
}

} // verus!
