//! Feature flags with kill switches and rollout strategies.
//!
//! A flag is off when its kill switch is on or it is disabled, on when it is
//! enabled, and otherwise rolled out: globally only at 100 %, or per user by
//! a bucket 0-99 taken from the first byte of SHA-256 of the user's address
//! text followed by the flag's name.
use vstd::prelude::*;
use soroban_sdk::Env;
use crate::access_control::{AccessControlManager, AccessRole};
use crate::crypto::{sha256_digest, sha256_of};
use crate::errors::BridgeError;
use crate::key_order::{bytes_less, inserted_in_order, lemma_lex_order, lemma_sorted_insert, lemma_sorted_update, lex_lt, lex_order, sorted_by};
use crate::keyed_seq::{distinct_keys, has_key, key_index, keyed_view, lemma_key_index, lemma_keyed_update};
use crate::types::bytes_equal;

verus! {

/// Whether a flag is on, off or rolling out.
#[derive(Copy, Clone, Debug, PartialEq, Eq, Structural)]
pub enum FeatureStatus {
    Enabled,
    Disabled,
    Rollout,
}

/// How a rolling-out flag picks its users.
#[derive(Copy, Clone, Debug, PartialEq, Eq, Structural)]
pub enum RolloutStrategy {
    Global,
    PercentageBased,
    ABTest,
}

/// A feature flag.
#[derive(Clone, Debug)]
pub struct FeatureFlag {
    pub name: Vec<u8>,
    pub status: FeatureStatus,
    pub strategy: RolloutStrategy,
    /// 0-100.
    pub rollout_percentage: u32,
    pub kill_switch_enabled: bool,
    pub created_at: u64,
    pub updated_at: u64,
}

/// The key of a flag: its name.
pub open spec fn flag_keyer() -> spec_fn(FeatureFlag) -> Seq<u8> {
    |f: FeatureFlag| f.name@
}

/// Whether `flag` is on for a user whose bucket digest is `digest`.
pub open spec fn flag_on(flag: FeatureFlag, digest: Seq<u8>) -> bool {
    if flag.kill_switch_enabled || flag.status == FeatureStatus::Disabled {
        false
    } else if flag.status == FeatureStatus::Enabled {
        true
    } else {
        match flag.strategy {
            RolloutStrategy::Global => flag.rollout_percentage == 100,
            _ => (digest[0] as u32) % 100 < flag.rollout_percentage,
        }
    }
}

/// The registered flags.
#[derive(Clone)]
pub struct FeatureFlagManager {
    /// One flag per name, in increasing name order.
    pub flags: Vec<FeatureFlag>,
}

impl FeatureFlagManager {
    /// One flag per name, in increasing name order.
    pub open spec fn wf(&self) -> bool {
        &&& distinct_keys(self.flags@, flag_keyer())
        &&& sorted_by(self.flags@, flag_keyer(), lex_order())
    }

    /// Flags by name.
    pub open spec fn flag_map(&self) -> Map<Seq<u8>, FeatureFlag> {
        keyed_view(self.flags@, flag_keyer())
    }

    /// No flags.
    pub fn new() -> (m: Self)
        ensures
            m.wf(),
            m.flags@.len() == 0,
    {
        FeatureFlagManager { flags: Vec::new() }
    }

    /// Position of the flag `name`, if set.
    fn find(&self, name: &Vec<u8>) -> (r: Option<usize>)
        requires
            self.wf(),
        ensures
            match r {
                Some(i) => i < self.flags@.len() && self.flags@[i as int].name@ == name@
                    && self.flag_map().contains_key(name@) && self.flag_map()[name@] == self.flags@[i as int],
                None => !self.flag_map().contains_key(name@),
            },
    {
        let mut i: usize = 0;
        while i < self.flags.len()
            invariant
                i <= self.flags@.len(),
                self.wf(),
                forall|j: int| 0 <= j < i ==> (#[trigger] self.flags@[j]).name@ != name@,
            decreases self.flags@.len() - i,
        {
            if bytes_equal(&self.flags[i].name, name) {
                proof { lemma_key_index(self.flags@, flag_keyer(), i as int); }
                return Some(i);
            }
            i = i + 1;
        }
        proof {
            if has_key(self.flags@, flag_keyer(), name@) {
                let j = key_index(self.flags@, flag_keyer(), name@);
                assert(self.flags@[j].name@ == name@);
            }
        }
        None
    }

    /// `operator`, a feature manager or admin, creates or updates flag `name`
    /// at `now`; an existing flag keeps its kill switch and creation time.
    pub fn set_feature_flag(
        &mut self,
        access: &AccessControlManager,
        operator: u64,
        name: Vec<u8>,
        status: FeatureStatus,
        strategy: RolloutStrategy,
        rollout_percentage: u32,
        now: u64,
    ) -> (r: Result<(), BridgeError>)
        requires
            old(self).wf(),
            access.wf(),
        ensures
            final(self).wf(),
            !access.holds(operator, AccessRole::FeatureManager) && !access.holds(operator, AccessRole::Admin) ==>
                r == Err::<(), BridgeError>(BridgeError::Unauthorized) && *final(self) == *old(self),
            (access.holds(operator, AccessRole::FeatureManager) || access.holds(operator, AccessRole::Admin))
                && rollout_percentage > 100 ==>
                r == Err::<(), BridgeError>(BridgeError::InvalidParameter) && *final(self) == *old(self),
            (access.holds(operator, AccessRole::FeatureManager) || access.holds(operator, AccessRole::Admin))
                && rollout_percentage <= 100 ==> {
                let f = final(self).flag_map()[name@];
                let existed = old(self).flag_map().contains_key(name@);
                &&& r is Ok
                &&& final(self).flag_map().dom() == old(self).flag_map().dom().insert(name@)
                &&& forall|n: Seq<u8>| n != name@ && #[trigger] old(self).flag_map().contains_key(n)
                    ==> final(self).flag_map()[n] == old(self).flag_map()[n]
                &&& f.name@ == name@ && f.status == status && f.strategy == strategy
                &&& f.rollout_percentage == rollout_percentage && f.updated_at == now
                &&& f.kill_switch_enabled == (existed && old(self).flag_map()[name@].kill_switch_enabled)
                &&& f.created_at == if existed { old(self).flag_map()[name@].created_at } else { now }
                &&& existed ==> final(self).flags@ == old(self).flags@.update(key_index(old(self).flags@, flag_keyer(), name@), f)
                &&& !existed ==> inserted_in_order(old(self).flags@, final(self).flags@, flag_keyer(), lex_order(), f)
            },
    {
        if !access.has_role(operator, AccessRole::FeatureManager) && !access.has_role(operator, AccessRole::Admin) {
            return Err(BridgeError::Unauthorized);
        }
        if rollout_percentage > 100 {
            return Err(BridgeError::InvalidParameter);
        }
        let ghost s0 = self.flags@;
        let ghost key = flag_keyer();
        proof { lemma_lex_order(); }
        let mut i: usize = 0;
        let mut before = true;
        while before && i < self.flags.len()
            invariant
                self.flags@ == s0,
                old(self).wf(),
                s0 == old(self).flags@,
                key == flag_keyer(),
                i <= s0.len(),
                forall|j: int| 0 <= j < i ==> lex_lt(#[trigger] s0[j].name@, name@),
                !before ==> i < s0.len() && !lex_lt(s0[i as int].name@, name@),
            decreases s0.len() - i + if before { 1int } else { 0int },
        {
            if bytes_less(&self.flags[i].name, &name) {
                i = i + 1;
            } else {
                before = false;
            }
        }
        let same = i < self.flags.len() && bytes_equal(&self.flags[i].name, &name);
        let (kill_switch_enabled, created_at) = if same {
            (self.flags[i].kill_switch_enabled, self.flags[i].created_at)
        } else {
            (false, now)
        };
        let flag = FeatureFlag { name, status, strategy, rollout_percentage, kill_switch_enabled, created_at, updated_at: now };
        let ghost x = flag;
        if same {
            proof { lemma_key_index(s0, key, i as int); }
            self.flags.set(i, flag);
            proof {
                lemma_keyed_update(s0, key, i as int, x);
                lemma_sorted_update(s0, key, lex_order(), i as int, x);
                lemma_key_index(s0.update(i as int, x), key, i as int);
            }
        } else {
            proof {
                assert forall|j: int| i <= j < s0.len() implies lex_lt(x.name@, #[trigger] s0[j].name@) by {
                    assert(s0[i as int].name@ != x.name@);
                    if j > i {
                        assert((lex_order())(key(s0[i as int]), key(s0[j])));
                    }
                }
                assert forall|j: int| 0 <= j < i implies (lex_order())(#[trigger] key(s0[j]), key(x)) by {
                    assert(lex_lt(s0[j].name@, x.name@));
                }
                assert forall|j: int| i <= j < s0.len() implies (lex_order())(key(x), #[trigger] key(s0[j])) by {
                    assert(lex_lt(x.name@, s0[j].name@));
                }
                assert(!has_key(s0, key, x.name@)) by {
                    if has_key(s0, key, x.name@) {
                        let j = key_index(s0, key, x.name@);
                        assert(s0[j].name@ == x.name@);
                    }
                }
                lemma_sorted_insert(s0, key, lex_order(), i as int, x);
                lemma_key_index(s0.insert(i as int, x), key, i as int);
            }
            self.flags.insert(i, flag);
        }
        Ok(())
    }

    /// `operator`, an emergency manager, feature manager or admin, sets the
    /// kill switch of flag `name` at `now`.
    pub fn trigger_kill_switch(&mut self, access: &AccessControlManager, operator: u64, name: &Vec<u8>, enabled: bool, now: u64)
        -> (r: Result<(), BridgeError>)
        requires
            old(self).wf(),
            access.wf(),
        ensures
            final(self).wf(),
            !access.holds(operator, AccessRole::EmergencyManager) && !access.holds(operator, AccessRole::FeatureManager)
                && !access.holds(operator, AccessRole::Admin) ==>
                r == Err::<(), BridgeError>(BridgeError::Unauthorized) && *final(self) == *old(self),
            (access.holds(operator, AccessRole::EmergencyManager) || access.holds(operator, AccessRole::FeatureManager)
                || access.holds(operator, AccessRole::Admin)) ==> {
                if !old(self).flag_map().contains_key(name@) {
                    r == Err::<(), BridgeError>(BridgeError::NotFound) && *final(self) == *old(self)
                } else {
                    let f = old(self).flag_map()[name@];
                    &&& r is Ok
                    &&& final(self).flag_map() == old(self).flag_map().insert(name@,
                        FeatureFlag { kill_switch_enabled: enabled, updated_at: now, ..f })
                }
            },
    {
        if !access.has_role(operator, AccessRole::EmergencyManager)
            && !access.has_role(operator, AccessRole::FeatureManager)
            && !access.has_role(operator, AccessRole::Admin) {
            return Err(BridgeError::Unauthorized);
        }
        let i = match self.find(name) {
            Some(i) => i,
            None => { return Err(BridgeError::NotFound); },
        };
        let ghost s0 = self.flags@;
        let placeholder = FeatureFlag {
            name: Vec::new(),
            status: FeatureStatus::Disabled,
            strategy: RolloutStrategy::Global,
            rollout_percentage: 0,
            kill_switch_enabled: false,
            created_at: 0,
            updated_at: 0,
        };
        let mut flag = placeholder;
        std::mem::swap(&mut flag, &mut self.flags[i]);
        flag.kill_switch_enabled = enabled;
        flag.updated_at = now;
        let ghost x = flag;
        self.flags.set(i, flag);
        proof {
            assert(self.flags@ == s0.update(i as int, x));
            lemma_keyed_update(s0, flag_keyer(), i as int, x);
            lemma_sorted_update(s0, flag_keyer(), lex_order(), i as int, x);
        }
        Ok(())
    }

    /// Every flag, in increasing name order.
    pub fn get_all_flags(&self) -> (r: &Vec<FeatureFlag>)
        requires
            self.wf(),
        ensures
            r@ == self.flags@,
            sorted_by(r@, flag_keyer(), lex_order()),
    {
        &self.flags
    }

    /// The flag `name`, if set.
    pub fn get_feature_flag(&self, name: &Vec<u8>) -> (r: Option<&FeatureFlag>)
        requires
            self.wf(),
        ensures
            match r {
                Some(f) => self.flag_map().contains_key(name@) && *f == self.flag_map()[name@],
                None => !self.flag_map().contains_key(name@),
            },
    {
        match self.find(name) {
            Some(i) => Some(&self.flags[i]),
            None => None,
        }
    }

    /// Whether flag `name` is on for the user whose address text is
    /// `user_text`; an unknown flag is off.
    pub fn is_feature_enabled(&self, env: &Env, name: &Vec<u8>, user_text: &Vec<u8>) -> (b: bool)
        requires
            self.wf(),
            user_text@.len() + name@.len() <= u32::MAX,
        ensures
            b == (self.flag_map().contains_key(name@)
                && flag_on(self.flag_map()[name@], sha256_of(user_text@ + name@))),
    {
        let i = match self.find(name) {
            Some(i) => i,
            None => { return false; },
        };
        let flag = &self.flags[i];
        if flag.kill_switch_enabled || flag.status == FeatureStatus::Disabled {
            return false;
        }
        if flag.status == FeatureStatus::Enabled {
            return true;
        }
        match flag.strategy {
            RolloutStrategy::Global => flag.rollout_percentage == 100,
            _ => {
                let mut data: Vec<u8> = Vec::new();
                let mut j: usize = 0;
                while j < user_text.len()
                    invariant
                        j <= user_text@.len(),
                        data@ == user_text@.take(j as int),
                    decreases user_text@.len() - j,
                {
                    data.push(user_text[j]);
                    assert(user_text@.take(j as int + 1) =~= user_text@.take(j as int).push(user_text@[j as int]));
                    j = j + 1;
                }
                let mut k: usize = 0;
                while k < name.len()
                    invariant
                        k <= name@.len(),
                        data@ == user_text@ + name@.take(k as int),
                    decreases name@.len() - k,
                {
                    data.push(name[k]);
                    assert(name@.take(k as int + 1) =~= name@.take(k as int).push(name@[k as int]));
                    assert(user_text@ + name@.take(k as int + 1) =~= (user_text@ + name@.take(k as int)).push(name@[k as int]));
                    k = k + 1;
                }
                proof {
                    assert(user_text@.take(user_text@.len() as int) =~= user_text@);
                    assert(name@.take(name@.len() as int) =~= name@);
                }
                let digest = sha256_digest(env, &data);
                let bucket = (digest[0] as u32) % 100;
                bucket < flag.rollout_percentage
            },
        }
    }
}

/// A kill switch turns a flag off for everyone, whatever its rollout.
pub proof fn law_kill_switch_overrides_rollout(flag: FeatureFlag, digest: Seq<u8>)
    requires
        flag.kill_switch_enabled,
    ensures
        !flag_on(flag, digest),
{
}

/// A rollout of 0 % reaches nobody and one of 100 % reaches everybody.
pub proof fn law_rollout_extremes(flag: FeatureFlag, digest: Seq<u8>)
    requires
        !flag.kill_switch_enabled,
        flag.status == FeatureStatus::Rollout,
    ensures
        flag.rollout_percentage == 0 ==> !flag_on(flag, digest),
        flag.rollout_percentage == 100 ==> flag_on(flag, digest),
{
}

} // verus!
