//! Semantic versions of the contract interface: the current version and the
//! oldest one still compatible, deprecated functions, migration paths
//! between versions, and the history of upgrades.
//!
//! Rules: a new version must be greater than the current one; the minimum
//! compatible version shares the current major and is not above it; a
//! client is compatible when it has the current major and lies between the
//! minimum and the current version.
use vstd::prelude::*;
use crate::errors::BridgeError;
use crate::key_order::{bytes_less, inserted_in_order, lemma_lex_order, lemma_sorted_insert, lemma_sorted_update, lex_lt, lex_order, sorted_by, u128_order};
use crate::keyed_seq::{distinct_keys, has_key, key_index, keyed_view, lemma_key_index, lemma_keyed_update};
use crate::types::{bytes_equal, AccountId};

verus! {

/// A semantic version.
#[derive(Copy, Clone, Debug, PartialEq, Eq, Structural)]
pub struct ContractSemVer {
    pub major: u32,
    pub minor: u32,
    pub patch: u32,
}

/// Whether `a` precedes `b` (by major, then minor, then patch).
pub open spec fn semver_lt(a: ContractSemVer, b: ContractSemVer) -> bool {
    a.major < b.major || (a.major == b.major && (a.minor < b.minor || (a.minor == b.minor && a.patch < b.patch)))
}

impl ContractSemVer {
    /// The version `major.minor.patch`.
    pub fn new(major: u32, minor: u32, patch: u32) -> (v: Self)
        ensures
            v == (ContractSemVer { major, minor, patch }),
    {
        ContractSemVer { major, minor, patch }
    }

    /// Whether `self` precedes `other`.
    pub fn is_lower_than(&self, other: &ContractSemVer) -> (b: bool)
        ensures
            b == semver_lt(*self, *other),
    {
        self.major < other.major
            || (self.major == other.major && (self.minor < other.minor || (self.minor == other.minor && self.patch < other.patch)))
    }

    /// Whether `self` follows `other`.
    pub fn is_greater_than(&self, other: &ContractSemVer) -> (b: bool)
        ensures
            b == semver_lt(*other, *self),
    {
        other.is_lower_than(self)
    }
}

/// The version the interface starts at (1.0.0).
pub open spec fn default_version() -> ContractSemVer {
    ContractSemVer { major: 1, minor: 0, patch: 0 }
}

/// The current and minimum compatible versions.
#[derive(Copy, Clone, Debug, PartialEq, Eq, Structural)]
pub struct InterfaceVersionStatus {
    pub current: ContractSemVer,
    pub minimum_compatible: ContractSemVer,
}

/// A deprecated entry point.
#[derive(Clone, Debug)]
pub struct DeprecatedFunction {
    pub function_name: Vec<u8>,
    pub deprecated_in: ContractSemVer,
    pub removal_in: ContractSemVer,
    pub replacement: Option<Vec<u8>>,
    pub reason: Vec<u8>,
}

/// What callers must do to move from one version to another.
#[derive(Clone, Debug)]
pub struct MigrationPath {
    pub from_version: ContractSemVer,
    pub to_version: ContractSemVer,
    pub description: Vec<u8>,
    pub breaking_changes: Vec<Vec<u8>>,
    pub migration_steps: Vec<Vec<u8>>,
}

/// The key of a deprecation record: the function's name.
pub open spec fn dep_key(d: DeprecatedFunction) -> Seq<u8> {
    d.function_name@
}

/// `dep_key` as a function value.
pub open spec fn dep_keyer() -> spec_fn(DeprecatedFunction) -> Seq<u8> {
    |d: DeprecatedFunction| dep_key(d)
}

/// The storage key of a pair of versions: 16-bit fields of the six
/// components, from the most significant.
pub open spec fn migration_key_of(from: ContractSemVer, to: ContractSemVer) -> u128 {
    ((from.major as u128) << 80u128) | ((from.minor as u128) << 64u128) | ((from.patch as u128) << 48u128)
        | ((to.major as u128) << 32u128) | ((to.minor as u128) << 16u128) | (to.patch as u128)
}

/// The key of a migration path.
pub open spec fn path_key(p: MigrationPath) -> u128 {
    migration_key_of(p.from_version, p.to_version)
}

/// `path_key` as a function value.
pub open spec fn path_keyer() -> spec_fn(MigrationPath) -> u128 {
    |p: MigrationPath| path_key(p)
}

/// Whether `current`/`minimum_compatible` form a valid range.
pub open spec fn range_ok(current: ContractSemVer, minimum_compatible: ContractSemVer) -> bool {
    minimum_compatible.major == current.major && !semver_lt(current, minimum_compatible)
}

/// The interface version registry.
#[derive(Clone)]
pub struct InterfaceVersioning {
    pub interface_version: Option<ContractSemVer>,
    pub min_compat_version: Option<ContractSemVer>,
    /// Deprecation records, one per function name, in increasing name order.
    pub deprecations: Vec<DeprecatedFunction>,
    /// Migration paths, one per pair of versions, in increasing key order.
    pub migration_paths: Vec<MigrationPath>,
    /// Versions replaced by upgrades, oldest first.
    pub version_history: Vec<ContractSemVer>,
    /// The contract admin, once set.
    pub admin: Option<AccountId>,
}

impl InterfaceVersioning {
    /// Registries keep one record per key, in increasing key order.
    pub open spec fn wf(&self) -> bool {
        &&& distinct_keys(self.deprecations@, dep_keyer())
        &&& sorted_by(self.deprecations@, dep_keyer(), lex_order())
        &&& distinct_keys(self.migration_paths@, path_keyer())
        &&& sorted_by(self.migration_paths@, path_keyer(), u128_order())
    }

    /// The current version (the default when unset).
    pub open spec fn current(&self) -> ContractSemVer {
        match self.interface_version { Some(v) => v, None => default_version() }
    }

    /// The minimum compatible version (the default when unset).
    pub open spec fn minimum(&self) -> ContractSemVer {
        match self.min_compat_version { Some(v) => v, None => default_version() }
    }

    /// Whether a client at `v` is served.
    pub open spec fn compatible(&self, v: ContractSemVer) -> bool {
        v.major == self.current().major && !semver_lt(v, self.minimum()) && !semver_lt(self.current(), v)
    }

    /// Deprecations by function name.
    pub open spec fn deprecation_map(&self) -> Map<Seq<u8>, DeprecatedFunction> {
        keyed_view(self.deprecations@, dep_keyer())
    }

    /// Migration paths by key.
    pub open spec fn path_map(&self) -> Map<u128, MigrationPath> {
        keyed_view(self.migration_paths@, path_keyer())
    }

    /// Nothing recorded; `admin` is the contract admin if known.
    pub fn new(admin: Option<AccountId>) -> (r: Self)
        ensures
            r.wf(),
            r.interface_version is None,
            r.min_compat_version is None,
            r.deprecations@.len() == 0,
            r.migration_paths@.len() == 0,
            r.version_history@.len() == 0,
            r.admin == admin,
    {
        InterfaceVersioning {
            interface_version: None,
            min_compat_version: None,
            deprecations: Vec::new(),
            migration_paths: Vec::new(),
            version_history: Vec::new(),
            admin,
        }
    }

    /// Store the default versions where none are stored.
    pub fn initialize(&mut self)
        ensures
            final(self).interface_version == Some(old(self).current()),
            final(self).min_compat_version == Some(old(self).minimum()),
            final(self).deprecations == old(self).deprecations,
            final(self).migration_paths == old(self).migration_paths,
            final(self).version_history == old(self).version_history,
            final(self).admin == old(self).admin,
    {
        if self.interface_version.is_none() {
            self.interface_version = Some(ContractSemVer::new(1, 0, 0));
        }
        if self.min_compat_version.is_none() {
            self.min_compat_version = Some(ContractSemVer::new(1, 0, 0));
        }
    }

    /// The current version.
    pub fn get_interface_version(&self) -> (v: ContractSemVer)
        ensures
            v == self.current(),
    {
        match self.interface_version {
            Some(v) => v,
            None => ContractSemVer::new(1, 0, 0),
        }
    }

    /// The minimum compatible version.
    pub fn get_minimum_compatible_interface_version(&self) -> (v: ContractSemVer)
        ensures
            v == self.minimum(),
    {
        match self.min_compat_version {
            Some(v) => v,
            None => ContractSemVer::new(1, 0, 0),
        }
    }

    /// Both versions.
    pub fn get_interface_version_status(&self) -> (s: InterfaceVersionStatus)
        ensures
            s == (InterfaceVersionStatus { current: self.current(), minimum_compatible: self.minimum() }),
    {
        InterfaceVersionStatus {
            current: self.get_interface_version(),
            minimum_compatible: self.get_minimum_compatible_interface_version(),
        }
    }

    /// Whether `minimum_compatible` shares the major of `current` and is not
    /// above it.
    pub fn validate_range(current: &ContractSemVer, minimum_compatible: &ContractSemVer) -> (r: Result<(), BridgeError>)
        ensures
            r == if range_ok(*current, *minimum_compatible) {
                Ok::<(), BridgeError>(())
            } else {
                Err::<(), BridgeError>(BridgeError::InvalidInterfaceVersionRange)
            },
    {
        if minimum_compatible.major != current.major {
            return Err(BridgeError::InvalidInterfaceVersionRange);
        }
        if minimum_compatible.is_greater_than(current) {
            return Err(BridgeError::InvalidInterfaceVersionRange);
        }
        Ok(())
    }

    /// Upgrade to `current` with `minimum_compatible`: the new version must
    /// be above the current one and the range valid.  The replaced version
    /// joins the history.
    pub fn set_interface_versions(&mut self, current: ContractSemVer, minimum_compatible: ContractSemVer) -> (r: Result<(), BridgeError>)
        requires
            old(self).admin is Some,
        ensures
            !semver_lt(old(self).current(), current) || !range_ok(current, minimum_compatible) ==>
                r == Err::<(), BridgeError>(BridgeError::InvalidInterfaceVersionRange) && *final(self) == *old(self),
            semver_lt(old(self).current(), current) && range_ok(current, minimum_compatible) ==> {
                &&& r is Ok
                &&& final(self).interface_version == Some(current)
                &&& final(self).min_compat_version == Some(minimum_compatible)
                &&& final(self).version_history@ == old(self).version_history@.push(old(self).current())
                &&& final(self).deprecations == old(self).deprecations
                &&& final(self).migration_paths == old(self).migration_paths
                &&& final(self).admin == old(self).admin
            },
    {
        match self.validate_semver_bump(&current) {
            Err(e) => { return Err(e); },
            Ok(()) => {},
        }
        match Self::validate_range(&current, &minimum_compatible) {
            Err(e) => { return Err(e); },
            Ok(()) => {},
        }
        let previous = self.get_interface_version();
        self.record_version_history(previous);
        self.interface_version = Some(current);
        self.min_compat_version = Some(minimum_compatible);
        Ok(())
    }

    /// `InvalidInterfaceVersionRange` unless `new_version` is above the
    /// current version.
    pub fn validate_semver_bump(&self, new_version: &ContractSemVer) -> (r: Result<(), BridgeError>)
        ensures
            r == if semver_lt(self.current(), *new_version) {
                Ok::<(), BridgeError>(())
            } else {
                Err::<(), BridgeError>(BridgeError::InvalidInterfaceVersionRange)
            },
    {
        let current = self.get_interface_version();
        if !new_version.is_greater_than(&current) {
            return Err(BridgeError::InvalidInterfaceVersionRange);
        }
        Ok(())
    }

    /// Append `previous` to the upgrade history.
    fn record_version_history(&mut self, previous: ContractSemVer)
        ensures
            final(self).version_history@ == old(self).version_history@.push(previous),
            final(self).interface_version == old(self).interface_version,
            final(self).min_compat_version == old(self).min_compat_version,
            final(self).deprecations == old(self).deprecations,
            final(self).migration_paths == old(self).migration_paths,
            final(self).admin == old(self).admin,
    {
        self.version_history.push(previous);
    }

    /// Whether a client at `client_version` is served: same major as the
    /// current version, not below the minimum, not above the current.
    pub fn is_interface_compatible(&self, client_version: ContractSemVer) -> (b: bool)
        ensures
            b == self.compatible(client_version),
    {
        let status = self.get_interface_version_status();
        client_version.major == status.current.major
            && !client_version.is_lower_than(&status.minimum_compatible)
            && !client_version.is_greater_than(&status.current)
    }

    /// `IncompatibleInterfaceVersion` unless a client at `client_version`
    /// is served.
    pub fn assert_interface_compatible(&self, client_version: ContractSemVer) -> (r: Result<(), BridgeError>)
        ensures
            r == if self.compatible(client_version) {
                Ok::<(), BridgeError>(())
            } else {
                Err::<(), BridgeError>(BridgeError::IncompatibleInterfaceVersion)
            },
    {
        if self.is_interface_compatible(client_version) {
            Ok(())
        } else {
            Err(BridgeError::IncompatibleInterfaceVersion)
        }
    }

    /// Whether moving from `from` to `to` keeps backward compatibility: same
    /// major, and `to` not below `from`.
    pub fn is_backward_compatible(from: &ContractSemVer, to: &ContractSemVer) -> (b: bool)
        ensures
            b == (from.major == to.major && !semver_lt(*to, *from)),
    {
        from.major == to.major && !to.is_lower_than(from)
    }

    /// Position of the deprecation of `name`, if any.
    fn find_deprecation(&self, name: &Vec<u8>) -> (r: Option<usize>)
        requires
            self.wf(),
        ensures
            match r {
                Some(i) => i < self.deprecations@.len() && dep_key(self.deprecations@[i as int]) == name@
                    && self.deprecation_map().contains_key(name@)
                    && self.deprecation_map()[name@] == self.deprecations@[i as int],
                None => !self.deprecation_map().contains_key(name@),
            },
    {
        let ghost key = dep_keyer();
        let mut i: usize = 0;
        while i < self.deprecations.len()
            invariant
                i <= self.deprecations@.len(),
                self.wf(),
                key == dep_keyer(),
                forall|j: int| 0 <= j < i ==> dep_key(#[trigger] self.deprecations@[j]) != name@,
            decreases self.deprecations@.len() - i,
        {
            if bytes_equal(&self.deprecations[i].function_name, name) {
                proof { lemma_key_index(self.deprecations@, key, i as int); }
                return Some(i);
            }
            i = i + 1;
        }
        proof {
            if has_key(self.deprecations@, key, name@) {
                let j = key_index(self.deprecations@, key, name@);
                assert(dep_key(self.deprecations@[j]) == name@);
            }
        }
        None
    }

    /// `caller` (the admin) deprecates `function_name` in `deprecated_in`,
    /// to be removed in the later `removal_in`; an earlier record of the
    /// same function is replaced in place, a new one goes where the name
    /// order puts it.
    pub fn deprecate_function(
        &mut self,
        caller: AccountId,
        function_name: Vec<u8>,
        deprecated_in: ContractSemVer,
        removal_in: ContractSemVer,
        replacement: Option<Vec<u8>>,
        reason: Vec<u8>,
    ) -> (r: Result<(), BridgeError>)
        requires
            old(self).wf(),
            old(self).admin is Some,
        ensures
            final(self).wf(),
            caller != old(self).admin->0 ==> r == Err::<(), BridgeError>(BridgeError::Unauthorized) && *final(self) == *old(self),
            caller == old(self).admin->0 && !semver_lt(deprecated_in, removal_in) ==>
                r == Err::<(), BridgeError>(BridgeError::InvalidInterfaceVersionRange) && *final(self) == *old(self),
            caller == old(self).admin->0 && semver_lt(deprecated_in, removal_in) ==> {
                let d = final(self).deprecation_map()[function_name@];
                &&& r is Ok
                &&& final(self).deprecation_map().dom() == old(self).deprecation_map().dom().insert(function_name@)
                &&& forall|n: Seq<u8>| n != function_name@ && #[trigger] old(self).deprecation_map().contains_key(n)
                    ==> final(self).deprecation_map()[n] == old(self).deprecation_map()[n]
                &&& d.function_name@ == function_name@ && d.deprecated_in == deprecated_in && d.removal_in == removal_in
                &&& d.replacement == replacement && d.reason == reason
                &&& old(self).deprecation_map().contains_key(function_name@) ==>
                    final(self).deprecations@ == old(self).deprecations@.update(key_index(old(self).deprecations@, dep_keyer(), function_name@), d)
                &&& !old(self).deprecation_map().contains_key(function_name@) ==>
                    inserted_in_order(old(self).deprecations@, final(self).deprecations@, dep_keyer(), lex_order(), d)
                &&& final(self).interface_version == old(self).interface_version
                &&& final(self).min_compat_version == old(self).min_compat_version
                &&& final(self).migration_paths == old(self).migration_paths
                &&& final(self).version_history == old(self).version_history
                &&& final(self).admin == old(self).admin
            },
    {
        let admin = match self.admin {
            Some(a) => a,
            None => 0,
        };
        if caller != admin {
            return Err(BridgeError::Unauthorized);
        }
        if !removal_in.is_greater_than(&deprecated_in) {
            return Err(BridgeError::InvalidInterfaceVersionRange);
        }
        let ghost key = dep_keyer();
        let ghost s0 = self.deprecations@;
        proof { lemma_lex_order(); }
        let mut i: usize = 0;
        let mut before = true;
        while before && i < self.deprecations.len()
            invariant
                self.deprecations@ == s0,
                old(self).wf(),
                s0 == old(self).deprecations@,
                key == dep_keyer(),
                i <= s0.len(),
                forall|j: int| 0 <= j < i ==> lex_lt(#[trigger] s0[j].function_name@, function_name@),
                !before ==> i < s0.len() && !lex_lt(s0[i as int].function_name@, function_name@),
            decreases s0.len() - i + if before { 1int } else { 0int },
        {
            if bytes_less(&self.deprecations[i].function_name, &function_name) {
                i = i + 1;
            } else {
                before = false;
            }
        }
        let same = i < self.deprecations.len() && bytes_equal(&self.deprecations[i].function_name, &function_name);
        let entry = DeprecatedFunction { function_name, deprecated_in, removal_in, replacement, reason };
        let ghost x = entry;
        if same {
            self.deprecations.set(i, entry);
            proof {
                lemma_key_index(s0, key, i as int);
                lemma_keyed_update(s0, key, i as int, x);
                lemma_sorted_update(s0, key, lex_order(), i as int, x);
                lemma_key_index(s0.update(i as int, x), key, i as int);
            }
        } else {
            proof {
                assert forall|j: int| i <= j < s0.len() implies lex_lt(x.function_name@, #[trigger] s0[j].function_name@) by {
                    assert(s0[i as int].function_name@ != x.function_name@);
                    if j > i {
                        assert((lex_order())(key(s0[i as int]), key(s0[j])));
                    }
                }
                assert forall|j: int| 0 <= j < i implies (lex_order())(#[trigger] key(s0[j]), key(x)) by {
                    assert(lex_lt(s0[j].function_name@, x.function_name@));
                }
                assert forall|j: int| i <= j < s0.len() implies (lex_order())(key(x), #[trigger] key(s0[j])) by {
                    assert(lex_lt(x.function_name@, s0[j].function_name@));
                }
                assert(!has_key(s0, key, x.function_name@)) by {
                    if has_key(s0, key, x.function_name@) {
                        let j = key_index(s0, key, x.function_name@);
                        assert(s0[j].function_name@ == x.function_name@);
                    }
                }
                lemma_sorted_insert(s0, key, lex_order(), i as int, x);
                lemma_key_index(s0.insert(i as int, x), key, i as int);
            }
            self.deprecations.insert(i, entry);
        }
        Ok(())
    }

    /// The deprecation record of `function_name`, if any.
    pub fn get_deprecation(&self, function_name: &Vec<u8>) -> (r: Option<&DeprecatedFunction>)
        requires
            self.wf(),
        ensures
            match r {
                Some(d) => self.deprecation_map().contains_key(function_name@) && *d == self.deprecation_map()[function_name@],
                None => !self.deprecation_map().contains_key(function_name@),
            },
    {
        match self.find_deprecation(function_name) {
            Some(i) => Some(&self.deprecations[i]),
            None => None,
        }
    }

    /// Every deprecation record, in increasing order of function name.
    pub fn get_all_deprecations(&self) -> (r: &Vec<DeprecatedFunction>)
        requires
            self.wf(),
        ensures
            r@ == self.deprecations@,
            sorted_by(r@, dep_keyer(), lex_order()),
    {
        &self.deprecations
    }

    /// The current version with every deprecation record, in increasing
    /// order of function name.
    pub fn get_deprecation_policy(&self) -> (p: (ContractSemVer, &Vec<DeprecatedFunction>))
        requires
            self.wf(),
        ensures
            p.0 == self.current(),
            p.1@ == self.deprecations@,
            sorted_by(p.1@, dep_keyer(), lex_order()),
    {
        (self.get_interface_version(), &self.deprecations)
    }

    /// The storage key of the pair `from`, `to`.
    pub fn migration_key(from: &ContractSemVer, to: &ContractSemVer) -> (k: u128)
        ensures
            k == migration_key_of(*from, *to),
    {
        ((from.major as u128) << 80u128)
            | ((from.minor as u128) << 64u128)
            | ((from.patch as u128) << 48u128)
            | ((to.major as u128) << 32u128)
            | ((to.minor as u128) << 16u128)
            | (to.patch as u128)
    }

    /// Position of the migration path stored under `k`, if any.
    fn find_path(&self, k: u128) -> (r: Option<usize>)
        requires
            self.wf(),
        ensures
            match r {
                Some(i) => i < self.migration_paths@.len() && path_key(self.migration_paths@[i as int]) == k
                    && self.path_map().contains_key(k) && self.path_map()[k] == self.migration_paths@[i as int],
                None => !self.path_map().contains_key(k),
            },
    {
        let ghost key = path_keyer();
        let mut i: usize = 0;
        while i < self.migration_paths.len()
            invariant
                i <= self.migration_paths@.len(),
                self.wf(),
                key == path_keyer(),
                forall|j: int| 0 <= j < i ==> path_key(#[trigger] self.migration_paths@[j]) != k,
            decreases self.migration_paths@.len() - i,
        {
            let p = &self.migration_paths[i];
            if Self::migration_key(&p.from_version, &p.to_version) == k {
                proof { lemma_key_index(self.migration_paths@, key, i as int); }
                return Some(i);
            }
            i = i + 1;
        }
        proof {
            if has_key(self.migration_paths@, key, k) {
                let j = key_index(self.migration_paths@, key, k);
                assert(path_key(self.migration_paths@[j]) == k);
            }
        }
        None
    }

    /// `caller` (the admin) documents how to move from `from_version` to the
    /// later `to_version`; an earlier path for the same key is replaced in
    /// place, a new one goes where the key order puts it.
    pub fn register_migration_path(
        &mut self,
        caller: AccountId,
        from_version: ContractSemVer,
        to_version: ContractSemVer,
        description: Vec<u8>,
        breaking_changes: Vec<Vec<u8>>,
        migration_steps: Vec<Vec<u8>>,
    ) -> (r: Result<(), BridgeError>)
        requires
            old(self).wf(),
            old(self).admin is Some,
        ensures
            final(self).wf(),
            caller != old(self).admin->0 ==> r == Err::<(), BridgeError>(BridgeError::Unauthorized) && *final(self) == *old(self),
            caller == old(self).admin->0 && !semver_lt(from_version, to_version) ==>
                r == Err::<(), BridgeError>(BridgeError::InvalidInterfaceVersionRange) && *final(self) == *old(self),
            caller == old(self).admin->0 && semver_lt(from_version, to_version) ==> {
                let k = migration_key_of(from_version, to_version);
                let np = MigrationPath { from_version, to_version, description, breaking_changes, migration_steps };
                &&& r is Ok
                &&& final(self).path_map() == old(self).path_map().insert(k, np)
                &&& old(self).path_map().contains_key(k) ==>
                    final(self).migration_paths@ == old(self).migration_paths@.update(key_index(old(self).migration_paths@, path_keyer(), k), np)
                &&& !old(self).path_map().contains_key(k) ==>
                    inserted_in_order(old(self).migration_paths@, final(self).migration_paths@, path_keyer(), u128_order(), np)
                &&& final(self).deprecations == old(self).deprecations
                &&& final(self).interface_version == old(self).interface_version
                &&& final(self).min_compat_version == old(self).min_compat_version
                &&& final(self).version_history == old(self).version_history
                &&& final(self).admin == old(self).admin
            },
    {
        let admin = match self.admin {
            Some(a) => a,
            None => 0,
        };
        if caller != admin {
            return Err(BridgeError::Unauthorized);
        }
        if !to_version.is_greater_than(&from_version) {
            return Err(BridgeError::InvalidInterfaceVersionRange);
        }
        let k = Self::migration_key(&from_version, &to_version);
        let ghost key = path_keyer();
        let ghost s0 = self.migration_paths@;
        let mut i: usize = 0;
        let mut before = true;
        while before && i < self.migration_paths.len()
            invariant
                self.migration_paths@ == s0,
                old(self).wf(),
                s0 == old(self).migration_paths@,
                key == path_keyer(),
                i <= s0.len(),
                forall|j: int| 0 <= j < i ==> path_key(#[trigger] s0[j]) < k,
                !before ==> i < s0.len() && path_key(s0[i as int]) >= k,
            decreases s0.len() - i + if before { 1int } else { 0int },
        {
            let p = &self.migration_paths[i];
            if Self::migration_key(&p.from_version, &p.to_version) < k {
                i = i + 1;
            } else {
                before = false;
            }
        }
        let same = if i < self.migration_paths.len() {
            let p = &self.migration_paths[i];
            Self::migration_key(&p.from_version, &p.to_version) == k
        } else {
            false
        };
        let path = MigrationPath { from_version, to_version, description, breaking_changes, migration_steps };
        let ghost x = path;
        if same {
            self.migration_paths.set(i, path);
            proof {
                lemma_key_index(s0, key, i as int);
                lemma_keyed_update(s0, key, i as int, x);
                lemma_sorted_update(s0, key, u128_order(), i as int, x);
            }
        } else {
            proof {
                assert forall|j: int| i <= j < s0.len() implies (u128_order())(key(x), #[trigger] key(s0[j])) by {
                    if j > i {
                        assert((u128_order())(key(s0[i as int]), key(s0[j])));
                    }
                }
                assert forall|j: int| 0 <= j < i implies (u128_order())(#[trigger] key(s0[j]), key(x)) by {
                    assert(path_key(s0[j]) < k);
                }
                assert(!has_key(s0, key, k)) by {
                    if has_key(s0, key, k) {
                        let j = key_index(s0, key, k);
                        assert(path_key(s0[j]) == k);
                        if j < i {
                        } else if j > i {
                            assert((u128_order())(key(s0[i as int]), key(s0[j])));
                        }
                    }
                }
                lemma_sorted_insert(s0, key, u128_order(), i as int, x);
            }
            self.migration_paths.insert(i, path);
        }
        Ok(())
    }

    /// The migration path from `from_version` to `to_version`, if recorded.
    pub fn get_migration_path(&self, from_version: &ContractSemVer, to_version: &ContractSemVer) -> (r: Option<&MigrationPath>)
        requires
            self.wf(),
        ensures
            match r {
                Some(p) => self.path_map().contains_key(migration_key_of(*from_version, *to_version))
                    && *p == self.path_map()[migration_key_of(*from_version, *to_version)],
                None => !self.path_map().contains_key(migration_key_of(*from_version, *to_version)),
            },
    {
        let k = Self::migration_key(from_version, to_version);
        match self.find_path(k) {
            Some(i) => Some(&self.migration_paths[i]),
            None => None,
        }
    }

    /// Every migration path, in increasing key order.
    pub fn get_all_migration_paths(&self) -> (r: &Vec<MigrationPath>)
        requires
            self.wf(),
        ensures
            r@ == self.migration_paths@,
            sorted_by(r@, path_keyer(), u128_order()),
    {
        &self.migration_paths
    }

    /// The versions replaced by upgrades, oldest first.
    pub fn get_version_history(&self) -> (r: &Vec<ContractSemVer>)
        ensures
            r@ == self.version_history@,
    {
        &self.version_history
    }
}

/// The current version is always compatible with itself whenever the stored
/// range is valid, and no client of another major is ever compatible.
pub proof fn law_current_version_is_compatible(iv: InterfaceVersioning, v: ContractSemVer)
    requires
        range_ok(iv.current(), iv.minimum()),
    ensures
        iv.compatible(iv.current()),
        v.major != iv.current().major ==> !iv.compatible(v),
{
}

/// Backward compatibility is reflexive and transitive.
pub proof fn law_backward_compatibility_is_a_preorder(a: ContractSemVer, b: ContractSemVer, c: ContractSemVer)
    ensures
        a.major == a.major && !semver_lt(a, a),
        (a.major == b.major && !semver_lt(b, a)) && (b.major == c.major && !semver_lt(c, b))
            ==> a.major == c.major && !semver_lt(c, a),
{
}

} // verus!
