//! Per-user, per-endpoint call limits over windows of ledger sequence
//! numbers.
//!
//! Each (caller, endpoint) pair has its own window.  A window that has run
//! for `window_ledgers` or more restarts at the current ledger; a call is
//! refused once `max_calls` were made in the current window.
use vstd::prelude::*;
use crate::errors::BridgeError;
use crate::keyed_seq::{distinct_keys, has_key, key_index, keyed_view, lemma_key_index, lemma_keyed_push, lemma_keyed_update};
use crate::types::{bytes_equal, copy_bytes, AccountId};

verus! {

/// Calls allowed per window unless an endpoint says otherwise.
pub const DEFAULT_MAX_CALLS: u32 = 100;
/// Window length in ledgers unless an endpoint says otherwise.
pub const DEFAULT_WINDOW_LEDGERS: u32 = 600;

/// The limit of an endpoint.
#[derive(Copy, Clone, Debug, PartialEq, Eq, Structural)]
pub struct EndpointConfig {
    pub max_calls: u32,
    pub window_ledgers: u32,
}

/// The current window of one caller at one endpoint.
#[derive(Copy, Clone, Debug, PartialEq, Eq, Structural)]
pub struct RateLimitState {
    pub window_start: u32,
    pub call_count: u32,
}

/// An endpoint's configured limit.
#[derive(Clone, Debug)]
pub struct EndpointEntry {
    pub endpoint: Vec<u8>,
    pub config: EndpointConfig,
}

/// A caller's window at an endpoint.
#[derive(Clone, Debug)]
pub struct StateEntry {
    pub caller: AccountId,
    pub endpoint: Vec<u8>,
    pub state: RateLimitState,
}

/// The key of an endpoint entry.
pub open spec fn endpoint_keyer() -> spec_fn(EndpointEntry) -> Seq<u8> {
    |e: EndpointEntry| e.endpoint@
}

/// The key of a state entry.
pub open spec fn state_keyer() -> spec_fn(StateEntry) -> (AccountId, Seq<u8>) {
    |e: StateEntry| (e.caller, e.endpoint@)
}

/// The default limit.
pub open spec fn default_config() -> EndpointConfig {
    EndpointConfig { max_calls: DEFAULT_MAX_CALLS, window_ledgers: DEFAULT_WINDOW_LEDGERS }
}

/// The window in force at ledger `seq` for a caller whose stored window is
/// `stored` (a fresh one when none), under `config`.
pub open spec fn window_at(stored: Option<RateLimitState>, config: EndpointConfig, seq: u32) -> RateLimitState {
    let s = match stored {
        Some(st) => st,
        None => RateLimitState { window_start: seq, call_count: 0 },
    };
    let elapsed: int = if seq >= s.window_start { seq - s.window_start } else { 0 };
    if elapsed >= config.window_ledgers {
        RateLimitState { window_start: seq, call_count: 0 }
    } else {
        s
    }
}

/// The configured limits and the callers' windows.
#[derive(Clone)]
pub struct RateLimiter {
    pub configs: Vec<EndpointEntry>,
    pub states: Vec<StateEntry>,
}

impl RateLimiter {
    /// One entry per endpoint and per (caller, endpoint).
    pub open spec fn wf(&self) -> bool {
        &&& distinct_keys(self.configs@, endpoint_keyer())
        &&& distinct_keys(self.states@, state_keyer())
    }

    /// Limits by endpoint.
    pub open spec fn config_map(&self) -> Map<Seq<u8>, EndpointEntry> {
        keyed_view(self.configs@, endpoint_keyer())
    }

    /// Windows by (caller, endpoint).
    pub open spec fn state_map(&self) -> Map<(AccountId, Seq<u8>), StateEntry> {
        keyed_view(self.states@, state_keyer())
    }

    /// The limit of `endpoint`.
    pub open spec fn config_of(&self, endpoint: Seq<u8>) -> EndpointConfig {
        if self.config_map().contains_key(endpoint) { self.config_map()[endpoint].config } else { default_config() }
    }

    /// The stored window of `caller` at `endpoint`, if any.
    pub open spec fn stored_state(&self, caller: AccountId, endpoint: Seq<u8>) -> Option<RateLimitState> {
        if self.state_map().contains_key((caller, endpoint)) {
            Some(self.state_map()[(caller, endpoint)].state)
        } else {
            None
        }
    }

    /// No limits configured, no calls seen.
    pub fn new() -> (r: Self)
        ensures
            r.wf(),
            r.configs@.len() == 0,
            r.states@.len() == 0,
    {
        RateLimiter { configs: Vec::new(), states: Vec::new() }
    }

    /// Position of the limit of `endpoint`, if configured.
    fn find_config(&self, endpoint: &Vec<u8>) -> (r: Option<usize>)
        requires
            self.wf(),
        ensures
            match r {
                Some(i) => i < self.configs@.len() && self.configs@[i as int].endpoint@ == endpoint@
                    && self.config_map().contains_key(endpoint@) && self.config_map()[endpoint@] == self.configs@[i as int],
                None => !self.config_map().contains_key(endpoint@),
            },
    {
        let mut i: usize = 0;
        while i < self.configs.len()
            invariant
                i <= self.configs@.len(),
                self.wf(),
                forall|j: int| 0 <= j < i ==> (#[trigger] self.configs@[j]).endpoint@ != endpoint@,
            decreases self.configs@.len() - i,
        {
            if bytes_equal(&self.configs[i].endpoint, endpoint) {
                proof { lemma_key_index(self.configs@, endpoint_keyer(), i as int); }
                return Some(i);
            }
            i = i + 1;
        }
        proof {
            if has_key(self.configs@, endpoint_keyer(), endpoint@) {
                let j = key_index(self.configs@, endpoint_keyer(), endpoint@);
                assert(self.configs@[j].endpoint@ == endpoint@);
            }
        }
        None
    }

    /// Position of the window of `caller` at `endpoint`, if any.
    fn find_state(&self, caller: AccountId, endpoint: &Vec<u8>) -> (r: Option<usize>)
        requires
            self.wf(),
        ensures
            match r {
                Some(i) => i < self.states@.len() && self.states@[i as int].caller == caller
                    && self.states@[i as int].endpoint@ == endpoint@
                    && self.state_map().contains_key((caller, endpoint@))
                    && self.state_map()[(caller, endpoint@)] == self.states@[i as int],
                None => !self.state_map().contains_key((caller, endpoint@)),
            },
    {
        let mut i: usize = 0;
        while i < self.states.len()
            invariant
                i <= self.states@.len(),
                self.wf(),
                forall|j: int| 0 <= j < i ==> (#[trigger] self.states@[j]).caller != caller || self.states@[j].endpoint@ != endpoint@,
            decreases self.states@.len() - i,
        {
            if self.states[i].caller == caller && bytes_equal(&self.states[i].endpoint, endpoint) {
                proof { lemma_key_index(self.states@, state_keyer(), i as int); }
                return Some(i);
            }
            i = i + 1;
        }
        proof {
            if has_key(self.states@, state_keyer(), (caller, endpoint@)) {
                let j = key_index(self.states@, state_keyer(), (caller, endpoint@));
                assert(self.states@[j].caller == caller && self.states@[j].endpoint@ == endpoint@);
            }
        }
        None
    }

    /// The limit of `endpoint` (the default when none is configured).
    pub fn get_config(&self, endpoint: &Vec<u8>) -> (c: EndpointConfig)
        requires
            self.wf(),
        ensures
            c == self.config_of(endpoint@),
    {
        match self.find_config(endpoint) {
            Some(i) => self.configs[i].config,
            None => EndpointConfig { max_calls: DEFAULT_MAX_CALLS, window_ledgers: DEFAULT_WINDOW_LEDGERS },
        }
    }

    /// Configure the limit of `endpoint`.
    pub fn set_endpoint_config(&mut self, endpoint: &Vec<u8>, config: EndpointConfig)
        requires
            old(self).wf(),
        ensures
            final(self).wf(),
            final(self).config_of(endpoint@) == config,
            forall|e: Seq<u8>| e != endpoint@ ==> #[trigger] final(self).config_of(e) == old(self).config_of(e),
            final(self).states == old(self).states,
    {
        let ghost s0 = self.configs@;
        let entry = EndpointEntry { endpoint: copy_bytes(endpoint), config };
        let ghost x = entry;
        match self.find_config(endpoint) {
            Some(i) => {
                self.configs.set(i, entry);
                proof { lemma_keyed_update(s0, endpoint_keyer(), i as int, x); }
            },
            None => {
                self.configs.push(entry);
                proof { lemma_keyed_push(s0, endpoint_keyer(), x); }
            },
        }
    }

    /// Record a call by `caller` to `endpoint` at ledger `seq`, unless the
    /// caller already made the allowed number of calls in its window.
    pub fn check_rate_limit(&mut self, caller: AccountId, endpoint: &Vec<u8>, seq: u32) -> (r: Result<(), BridgeError>)
        requires
            old(self).wf(),
        ensures
            final(self).wf(),
            final(self).configs == old(self).configs,
            ({
                let w = window_at(old(self).stored_state(caller, endpoint@), old(self).config_of(endpoint@), seq);
                if w.call_count >= old(self).config_of(endpoint@).max_calls {
                    r == Err::<(), BridgeError>(BridgeError::RetryLimitExceeded) && *final(self) == *old(self)
                } else {
                    &&& r is Ok
                    &&& final(self).stored_state(caller, endpoint@)
                        == Some(RateLimitState { call_count: (w.call_count + 1) as u32, ..w })
                    &&& forall|c: AccountId, e: Seq<u8>| (c, e) != (caller, endpoint@)
                        ==> #[trigger] final(self).stored_state(c, e) == old(self).stored_state(c, e)
                }
            }),
    {
        let config = self.get_config(endpoint);
        let found = self.find_state(caller, endpoint);
        let mut state = match found {
            Some(i) => self.states[i].state,
            None => RateLimitState { window_start: seq, call_count: 0 },
        };
        if seq.saturating_sub(state.window_start) >= config.window_ledgers {
            state.window_start = seq;
            state.call_count = 0;
        }
        if state.call_count >= config.max_calls {
            return Err(BridgeError::RetryLimitExceeded);
        }
        state.call_count = state.call_count + 1;
        let ghost s0 = self.states@;
        let entry = StateEntry { caller, endpoint: copy_bytes(endpoint), state };
        let ghost x = entry;
        match found {
            Some(i) => {
                self.states.set(i, entry);
                proof { lemma_keyed_update(s0, state_keyer(), i as int, x); }
            },
            None => {
                self.states.push(entry);
                proof { lemma_keyed_push(s0, state_keyer(), x); }
            },
        }
        Ok(())
    }
}

/// Within a window, accepted calls never exceed the endpoint's limit: a call
/// is accepted only below the limit, and it raises the count by one.
pub proof fn law_calls_per_window_are_capped(stored: Option<RateLimitState>, config: EndpointConfig, seq: u32)
    requires
        stored matches Some(s) ==> s.call_count <= config.max_calls,
    ensures
        window_at(stored, config, seq).call_count <= config.max_calls,
        window_at(stored, config, seq).call_count < config.max_calls
            ==> window_at(stored, config, seq).call_count + 1 <= config.max_calls,
{
}

/// A window that has run its length starts over.
pub proof fn law_expired_window_restarts(s: RateLimitState, config: EndpointConfig, seq: u32)
    requires
        seq >= s.window_start,
        seq - s.window_start >= config.window_ledgers,
    ensures
        window_at(Some(s), config, seq) == (RateLimitState { window_start: seq, call_count: 0 }),
{
}

} // verus!
