//! Role-based access control.  The contract admin holds every role; other
//! accounts hold the roles granted to them.  Grants and revocations by an
//! admin are audited.
use vstd::prelude::*;
use crate::audit::{AuditManager, AuditRecord, OperationType, next_id};
use crate::errors::BridgeError;
use crate::id_map::IdMap;
use crate::types::AccountId;

verus! {

/// The roles an account can hold.
#[derive(Copy, Clone, Debug, PartialEq, Eq, Structural)]
pub enum AccessRole {
    Admin,
    BridgeOperator,
    EmergencyManager,
    FeatureManager,
    ValidatorManager,
}

/// Who holds which role.
#[derive(Clone)]
pub struct AccessControlManager {
    /// The contract admin, once set.
    pub admin: Option<AccountId>,
    /// Roles granted, per account, in the order granted.
    pub roles: IdMap<Vec<AccessRole>>,
}

impl AccessControlManager {
    /// The table is well formed.
    pub open spec fn wf(&self) -> bool {
        self.roles.wf()
    }

    /// The roles granted to `a`.
    pub open spec fn granted(&self, a: AccountId) -> Seq<AccessRole> {
        if self.roles@.contains_key(a) { self.roles@[a]@ } else { Seq::empty() }
    }

    /// Whether `a` holds `role`.
    pub open spec fn holds(&self, a: AccountId, role: AccessRole) -> bool {
        self.admin == Some(a) || self.granted(a).contains(role)
    }

    /// No roles granted; `admin` is the contract admin if known.
    pub fn new(admin: Option<AccountId>) -> (m: Self)
        ensures
            m.wf(),
            m.admin == admin,
            m.roles@ == Map::<u64, Vec<AccessRole>>::empty(),
    {
        AccessControlManager { admin, roles: IdMap::new() }
    }

    /// Whether `role` is among `roles`.
    fn contains_role(roles: &Vec<AccessRole>, role: AccessRole) -> (b: bool)
        ensures
            b == roles@.contains(role),
    {
        let mut i: usize = 0;
        while i < roles.len()
            invariant
                i <= roles@.len(),
                forall|j: int| 0 <= j < i ==> roles@[j] != role,
            decreases roles@.len() - i,
        {
            if roles[i] == role {
                assert(roles@[i as int] == role);
                return true;
            }
            i = i + 1;
        }
        false
    }

    /// Whether `address` holds `role`.
    pub fn has_role(&self, address: AccountId, role: AccessRole) -> (b: bool)
        requires
            self.wf(),
        ensures
            b == self.holds(address, role),
    {
        if let Some(a) = self.admin {
            if address == a {
                return true;
            }
        }
        match self.roles.get(address) {
            Some(rs) => Self::contains_role(rs, role),
            None => false,
        }
    }

    /// `Unauthorized` unless `address` holds `role`.
    pub fn check_role(&self, address: AccountId, role: AccessRole) -> (r: Result<(), BridgeError>)
        requires
            self.wf(),
        ensures
            r == if self.holds(address, role) { Ok::<(), BridgeError>(()) } else { Err::<(), BridgeError>(BridgeError::Unauthorized) },
    {
        if !self.has_role(address, role) {
            return Err(BridgeError::Unauthorized);
        }
        Ok(())
    }

    /// An admin `caller` grants `role` to `target` at `now`; a new grant is
    /// audited as `RoleGranted`.
    pub fn grant_role(&mut self, caller: AccountId, target: AccountId, role: AccessRole, audit: &mut AuditManager, now: u64)
        -> (r: Result<(), BridgeError>)
        requires
            old(self).wf(),
            old(audit).wf(),
        ensures
            final(self).wf(),
            final(audit).wf(),
            final(self).admin == old(self).admin,
            !old(self).holds(caller, AccessRole::Admin) ==>
                r == Err::<(), BridgeError>(BridgeError::Unauthorized) && *final(self) == *old(self) && *final(audit) == *old(audit),
            old(self).holds(caller, AccessRole::Admin) && old(self).granted(target).contains(role) ==>
                r is Ok && *final(self) == *old(self) && *final(audit) == *old(audit),
            old(self).holds(caller, AccessRole::Admin) && !old(self).granted(target).contains(role) ==> {
                let id = next_id(old(audit).audit_counter);
                &&& r is Ok
                &&& final(self).granted(target) == old(self).granted(target).push(role)
                &&& forall|a: AccountId| a != target ==> #[trigger] final(self).granted(a) == old(self).granted(a)
                &&& final(audit).audit_counter == id
                &&& final(audit).records@.dom() == old(audit).records@.dom().insert(id)
                &&& final(audit).records@[id].operation_type == OperationType::RoleGranted
                &&& final(audit).records@[id].operator == caller
                &&& final(audit).records@[id].timestamp == now
            },
    {
        if !self.has_role(caller, AccessRole::Admin) {
            return Err(BridgeError::Unauthorized);
        }
        let present = match self.roles.get(target) {
            Some(rs) => Self::contains_role(rs, role),
            None => false,
        };
        if present {
            return Ok(());
        }
        let mut rs = match self.roles.remove(target) {
            Some(v) => v,
            None => Vec::new(),
        };
        rs.push(role);
        self.roles.insert(target, rs);
        match audit.create_audit_record(OperationType::RoleGranted, caller, Vec::new(), Vec::new(), now) {
            Ok(_) => Ok(()),
            Err(e) => Err(e),
        }
    }

    /// An admin `caller` revokes `role` from `target` at `now`; a role that
    /// was held is removed and the revocation audited as `RoleRevoked`.
    pub fn revoke_role(&mut self, caller: AccountId, target: AccountId, role: AccessRole, audit: &mut AuditManager, now: u64)
        -> (r: Result<(), BridgeError>)
        requires
            old(self).wf(),
            old(audit).wf(),
        ensures
            final(self).wf(),
            final(audit).wf(),
            final(self).admin == old(self).admin,
            !old(self).holds(caller, AccessRole::Admin) ==>
                r == Err::<(), BridgeError>(BridgeError::Unauthorized) && *final(self) == *old(self) && *final(audit) == *old(audit),
            old(self).holds(caller, AccessRole::Admin) && !old(self).granted(target).contains(role) ==>
                r is Ok && *final(self) == *old(self) && *final(audit) == *old(audit),
            old(self).holds(caller, AccessRole::Admin) && old(self).granted(target).contains(role) ==> {
                let id = next_id(old(audit).audit_counter);
                &&& r is Ok
                &&& final(self).granted(target) == old(self).granted(target).filter(|x: AccessRole| x != role)
                &&& !final(self).granted(target).contains(role)
                &&& forall|a: AccountId| a != target ==> #[trigger] final(self).granted(a) == old(self).granted(a)
                &&& final(audit).audit_counter == id
                &&& final(audit).records@.dom() == old(audit).records@.dom().insert(id)
                &&& final(audit).records@[id].operation_type == OperationType::RoleRevoked
                &&& final(audit).records@[id].operator == caller
            },
    {
        if !self.has_role(caller, AccessRole::Admin) {
            return Err(BridgeError::Unauthorized);
        }
        let present = match self.roles.get(target) {
            Some(rs) => Self::contains_role(rs, role),
            None => false,
        };
        if !present {
            return Ok(());
        }
        let old_roles = self.roles.remove(target).unwrap();
        let ghost keep = |x: AccessRole| x != role;
        let mut kept: Vec<AccessRole> = Vec::new();
        let mut i: usize = 0;
        proof {
            reveal(Seq::filter);
            assert(old_roles@.take(0).filter(keep) =~= Seq::<AccessRole>::empty());
        }
        while i < old_roles.len()
            invariant
                i <= old_roles@.len(),
                keep == |x: AccessRole| x != role,
                kept@ == old_roles@.take(i as int).filter(keep),
            decreases old_roles@.len() - i,
        {
            proof {
                assert(old_roles@.take(i as int + 1) =~= old_roles@.take(i as int).push(old_roles@[i as int]));
                old_roles@.take(i as int).lemma_filter_push(old_roles@[i as int], keep);
            }
            if old_roles[i] != role {
                kept.push(old_roles[i]);
            }
            i = i + 1;
        }
        proof {
            assert(old_roles@.take(i as int) =~= old_roles@);
            old_roles@.filter_lemma(keep);
            if kept@.contains(role) {
                let j = choose|j: int| 0 <= j < kept@.len() && kept@[j] == role;
                assert(keep(kept@[j]));
            }
        }
        self.roles.insert(target, kept);
        match audit.create_audit_record(OperationType::RoleRevoked, caller, Vec::new(), Vec::new(), now) {
            Ok(_) => Ok(()),
            Err(e) => Err(e),
        }
    }
}

/// The admin holds every role, whatever was granted or revoked.
pub proof fn law_admin_holds_every_role(m: AccessControlManager, admin: AccountId, role: AccessRole)
    requires
        m.admin == Some(admin),
    ensures
        m.holds(admin, role),
{
}

/// After a revocation the role is gone unless the account is the admin.
pub proof fn law_revoked_role_is_gone(m: AccessControlManager, target: AccountId, role: AccessRole)
    requires
        m.admin != Some(target),
        !m.granted(target).contains(role),
    ensures
        !m.holds(target, role),
{
}

} // verus!
