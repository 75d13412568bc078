//! Multi-signature escrow: deposits held until weighted signer approvals
//! reach a threshold, with refunds, cancellation, disputes and arbitration.
//!
//! An escrow starts `Pending`.  It ends `Released` (to the beneficiary),
//! `Refunded` or `Cancelled` (to the depositor), possibly through
//! `Disputed`, which only its arbitrator can settle.  Every payout leaves
//! from a pending or disputed escrow and leaves it settled, so the deposit
//! is paid out at most once.
use vstd::prelude::*;
use crate::arbitration::{first_active, next_reputation, stalled, ArbitrationManager, STALL_TIMEOUT_SECS};
use crate::errors::EscrowError;
use crate::escrow_analytics::{after_creation, after_resolution, creation_wraps, EscrowAnalyticsManager, EscrowMetrics};
use crate::id_map::IdMap;
use crate::types::{AccountId, Holder, Transfer};

verus! {

/// Where an escrow stands.
#[derive(Copy, Clone, Debug, PartialEq, Eq, Structural)]
pub enum EscrowStatus {
    Pending,
    Released,
    Refunded,
    Disputed,
    Cancelled,
}

/// How an arbitrator settles a dispute.
#[derive(Copy, Clone, Debug, PartialEq, Eq, Structural)]
pub enum DisputeOutcome {
    ReleaseToBeneficiary,
    RefundToDepositor,
}

/// A signer and the weight of its approval.
#[derive(Copy, Clone, Debug, PartialEq, Eq, Structural)]
pub struct EscrowSigner {
    pub address: AccountId,
    pub weight: u32,
}

/// One signer's approval of one escrow.
#[derive(Copy, Clone, Debug, PartialEq, Eq, Structural)]
pub struct EscrowApprovalKey {
    pub escrow_id: u64,
    pub signer: AccountId,
}

/// What a depositor asks for.
#[derive(Clone, Debug)]
pub struct EscrowParameters {
    pub depositor: AccountId,
    pub beneficiary: AccountId,
    pub token: AccountId,
    pub amount: i128,
    pub signers: Vec<EscrowSigner>,
    pub threshold: u32,
    pub release_time: Option<u64>,
    pub refund_time: Option<u64>,
    pub arbitrator: AccountId,
}

/// An escrow.
#[derive(Clone, Debug)]
pub struct Escrow {
    pub id: u64,
    pub depositor: AccountId,
    pub beneficiary: AccountId,
    pub token: AccountId,
    pub amount: i128,
    pub signers: Vec<EscrowSigner>,
    pub threshold: u32,
    /// Sum of the weights of the signers who approved.
    pub approval_count: u32,
    pub release_time: Option<u64>,
    pub refund_time: Option<u64>,
    pub arbitrator: AccountId,
    pub status: EscrowStatus,
    pub created_at: u64,
    pub dispute_reason: Option<Vec<u8>>,
}

/// Whether an escrow in `s` has paid out.
pub open spec fn settled(s: EscrowStatus) -> bool {
    s == EscrowStatus::Released || s == EscrowStatus::Refunded || s == EscrowStatus::Cancelled
}

/// Sum of the signers' weights.
pub open spec fn total_weight(s: Seq<EscrowSigner>) -> int
    decreases s.len(),
{
    if s.len() == 0 { 0 } else { total_weight(s.drop_last()) + s.last().weight }
}

/// Whether two signers share an address.
pub open spec fn has_duplicate(s: Seq<EscrowSigner>) -> bool {
    exists|i: int, j: int| 0 <= i < j < s.len() && #[trigger] s[i].address == #[trigger] s[j].address
}

/// Whether `a` is among the signers.
pub open spec fn is_signer(s: Seq<EscrowSigner>, a: AccountId) -> bool {
    exists|i: int| 0 <= i < s.len() && #[trigger] s[i].address == a
}

/// The weight of the first signer with address `a` (meaningful when there
/// is one).
pub open spec fn signer_weight(s: Seq<EscrowSigner>, a: AccountId) -> u32
    decreases s.len(),
{
    if s.len() == 0 { 0 } else if s[0].address == a { s[0].weight } else { signer_weight(s.drop_first(), a) }
}

/// Why escrow parameters are refused, if they are.
pub open spec fn params_error(p: EscrowParameters) -> Option<EscrowError> {
    if p.amount <= 0 {
        Some(EscrowError::AmountMustBePositive)
    } else if p.depositor == p.beneficiary {
        Some(EscrowError::DepositorCannotBeBeneficiary)
    } else if p.signers@.len() == 0 {
        Some(EscrowError::AtLeastOneSignerRequired)
    } else if has_duplicate(p.signers@) {
        Some(EscrowError::DuplicateSigner)
    } else if p.threshold == 0 || p.threshold > total_weight(p.signers@) {
        Some(EscrowError::InvalidSignerThreshold)
    } else if p.release_time is Some && p.refund_time is Some && p.refund_time->0 <= p.release_time->0 {
        Some(EscrowError::RefundTimeMustBeAfterReleaseTime)
    } else {
        None
    }
}

/// Why `caller` may not release `e` at `now`, if it may not.
pub open spec fn release_error(e: Escrow, caller: AccountId, now: u64) -> Option<EscrowError> {
    if e.status != EscrowStatus::Pending {
        Some(EscrowError::EscrowNotPending)
    } else if caller != e.depositor && caller != e.beneficiary && !is_signer(e.signers@, caller) {
        Some(EscrowError::CallerNotAuthorized)
    } else if e.approval_count < e.threshold {
        Some(EscrowError::InsufficientApprovals)
    } else if e.release_time is Some && now < e.release_time->0 {
        Some(EscrowError::ReleaseTimeNotReached)
    } else {
        None
    }
}

/// Approvals recorded per escrow and signer.
#[derive(Clone)]
pub struct EscrowApprovalRepository {
    pub approved: Vec<EscrowApprovalKey>,
}

impl EscrowApprovalRepository {
    /// The recorded approvals.
    pub open spec fn view(&self) -> Set<EscrowApprovalKey> {
        self.approved@.to_set()
    }

    /// No approvals.
    pub fn new() -> (r: Self)
        ensures
            r@ == Set::<EscrowApprovalKey>::empty(),
    {
        let r = EscrowApprovalRepository { approved: Vec::new() };
        assert(r@ =~= Set::<EscrowApprovalKey>::empty());
        r
    }

    /// Record the approval `key`.
    pub fn approve(&mut self, key: &EscrowApprovalKey) -> (r: Result<(), EscrowError>)
        ensures
            r is Ok,
            final(self)@ == old(self)@.insert(*key),
    {
        if !self.has_approved(key) {
            self.approved.push(*key);
            assert(self@ =~= old(self)@.insert(*key)) by {
                assert forall|k: EscrowApprovalKey| #[trigger] self@.contains(k) == old(self)@.insert(*key).contains(k) by {
                    if old(self).approved@.contains(k) {
                        let i = choose|i: int| 0 <= i < old(self).approved@.len() && old(self).approved@[i] == k;
                        assert(self.approved@[i] == k);
                    }
                    if self.approved@.contains(k) {
                        let i = choose|i: int| 0 <= i < self.approved@.len() && self.approved@[i] == k;
                        if i < old(self).approved@.len() {
                            assert(old(self).approved@[i] == k);
                        }
                    }
                    if k == *key {
                        assert(self.approved@[old(self).approved@.len() as int] == k);
                    }
                }
            }
        } else {
            assert(self@ =~= old(self)@.insert(*key));
        }
        Ok(())
    }

    /// Whether the approval `key` was recorded.
    pub fn has_approved(&self, key: &EscrowApprovalKey) -> (b: bool)
        ensures
            b == self@.contains(*key),
    {
        let mut i: usize = 0;
        while i < self.approved.len()
            invariant
                i <= self.approved@.len(),
                forall|j: int| 0 <= j < i ==> self.approved@[j] != *key,
            decreases self.approved@.len() - i,
        {
            if self.approved[i] == *key {
                assert(self.approved@.contains(*key));
                return true;
            }
            i = i + 1;
        }
        false
    }
}

/// The escrows and everything they rely on.
#[derive(Clone)]
pub struct EscrowManager {
    pub escrows: IdMap<Escrow>,
    /// Number of escrows ever created; the id of the last one.
    pub escrow_count: u64,
    pub approvals: EscrowApprovalRepository,
    pub arbitration: ArbitrationManager,
    pub analytics: EscrowAnalyticsManager,
    /// This contract's own address, which as an arbitrator means "none
    /// assigned".
    pub contract: AccountId,
}

impl EscrowManager {
    /// Tables are well formed.
    pub open spec fn wf(&self) -> bool {
        self.escrows.wf() && self.arbitration.wf()
    }

    /// The escrow `id`, in the spec.
    pub open spec fn escrow(&self, id: u64) -> Escrow {
        self.escrows@[id]
    }

    /// Only escrow `id` may differ between `self` and `other`; the rest
    /// stays.
    pub open spec fn only_escrow_changed(&self, other: &Self) -> bool {
        &&& self.escrow_count == other.escrow_count
        &&& self.approvals == other.approvals
        &&& self.arbitration == other.arbitration
        &&& self.analytics == other.analytics
        &&& self.contract == other.contract
    }

    /// No escrows; `contract` is this contract's address.
    pub fn new(contract: AccountId) -> (m: Self)
        ensures
            m.wf(),
            m.escrows@ == Map::<u64, Escrow>::empty(),
            m.escrow_count == 0,
            m.approvals@ == Set::<EscrowApprovalKey>::empty(),
            m.arbitration.arbitrators@ == Map::<u64, crate::arbitration::ArbitratorProfile>::empty(),
            m.analytics.metrics == crate::escrow_analytics::zero_metrics(),
            m.contract == contract,
    {
        EscrowManager {
            escrows: IdMap::new(),
            escrow_count: 0,
            approvals: EscrowApprovalRepository::new(),
            arbitration: ArbitrationManager::new(),
            analytics: EscrowAnalyticsManager::new(),
            contract,
        }
    }

    /// Why `params` are refused, if they are.
    pub fn validate_escrow_parameters(params: &EscrowParameters) -> (r: Result<(), EscrowError>)
        ensures
            match params_error(*params) {
                Some(e) => r == Err::<(), EscrowError>(e),
                None => r is Ok,
            },
    {
        if params.amount <= 0 {
            return Err(EscrowError::AmountMustBePositive);
        }
        if params.depositor == params.beneficiary {
            return Err(EscrowError::DepositorCannotBeBeneficiary);
        }
        if params.signers.len() == 0 {
            return Err(EscrowError::AtLeastOneSignerRequired);
        }
        if Self::signers_have_duplicate(&params.signers) {
            return Err(EscrowError::DuplicateSigner);
        }
        let total = Self::sum_weights(&params.signers);
        if params.threshold == 0 || params.threshold as u128 > total {
            return Err(EscrowError::InvalidSignerThreshold);
        }
        if let (Some(release), Some(refund)) = (params.release_time, params.refund_time) {
            if refund <= release {
                return Err(EscrowError::RefundTimeMustBeAfterReleaseTime);
            }
        }
        Ok(())
    }

    /// Whether two signers share an address.
    fn signers_have_duplicate(s: &Vec<EscrowSigner>) -> (b: bool)
        ensures
            b == has_duplicate(s@),
    {
        let mut j: usize = 0;
        while j < s.len()
            invariant
                j <= s@.len(),
                forall|a: int, b: int| 0 <= a < b < j ==> s@[a].address != s@[b].address,
            decreases s@.len() - j,
        {
            let mut i: usize = 0;
            while i < j
                invariant
                    i <= j < s@.len(),
                    forall|a: int| 0 <= a < i ==> s@[a].address != s@[j as int].address,
                decreases j - i,
            {
                if s[i].address == s[j].address {
                    assert(s@[i as int].address == s@[j as int].address);
                    return true;
                }
                i = i + 1;
            }
            j = j + 1;
        }
        assert(!has_duplicate(s@)) by {
            if has_duplicate(s@) {
                let (a, b) = choose|a: int, b: int| 0 <= a < b < s@.len() && #[trigger] s@[a].address == #[trigger] s@[b].address;
                assert(s@[a].address != s@[b].address);
            }
        }
        false
    }

    /// The sum of the signers' weights.
    fn sum_weights(s: &Vec<EscrowSigner>) -> (t: u128)
        ensures
            t == total_weight(s@),
    {
        let mut t: u128 = 0;
        let mut i: usize = 0;
        while i < s.len()
            invariant
                i <= s@.len(),
                t == total_weight(s@.take(i as int)),
                t <= i * 0xffff_ffffu128,
            decreases s@.len() - i,
        {
            assert(s@.take(i as int + 1).drop_last() =~= s@.take(i as int));
            t = t + s[i].weight as u128;
            i = i + 1;
        }
        assert(s@.take(i as int) =~= s@);
        t
    }

    /// The weight of `a` among the signers, if it is one.
    fn find_signer(s: &Vec<EscrowSigner>, a: AccountId) -> (r: Option<u32>)
        ensures
            match r {
                Some(w) => is_signer(s@, a) && w == signer_weight(s@, a),
                None => !is_signer(s@, a),
            },
    {
        let mut i: usize = 0;
        assert(s@.skip(0) =~= s@);
        while i < s.len()
            invariant
                i <= s@.len(),
                forall|j: int| 0 <= j < i ==> s@[j].address != a,
                signer_weight(s@, a) == signer_weight(s@.skip(i as int), a),
            decreases s@.len() - i,
        {
            assert(s@.skip(i as int).drop_first() =~= s@.skip(i as int + 1));
            assert(s@.skip(i as int)[0] == s@[i as int]);
            if s[i].address == a {
                assert(s@[i as int].address == a);
                return Some(s[i].weight);
            }
            i = i + 1;
        }
        None
    }

    /// `params.depositor` opens an escrow at `now`.  It gets the next id,
    /// starts pending with no approvals, and is counted in the totals.
    /// Returns the id and the deposit to make.
    pub fn create_escrow(&mut self, params: EscrowParameters, now: u64) -> (r: Result<(u64, Transfer), EscrowError>)
        requires
            old(self).wf(),
            params_error(params) is None ==> {
                &&& old(self).escrow_count < u64::MAX
                &&& old(self).analytics.metrics.resets + creation_wraps(old(self).analytics.metrics, params.amount) <= u32::MAX
            },
        ensures
            final(self).wf(),
            params_error(params) matches Some(e) ==> r == Err::<(u64, Transfer), EscrowError>(e) && *final(self) == *old(self),
            params_error(params) is None ==> {
                let id = (old(self).escrow_count + 1) as u64;
                let e = final(self).escrow(id);
                &&& r == Ok::<(u64, Transfer), EscrowError>((id, Transfer {
                    token: params.token,
                    from: Holder::Account(params.depositor),
                    to: Holder::Contract,
                    amount: params.amount,
                }))
                &&& final(self).escrow_count == id
                &&& final(self).escrows@.dom() == old(self).escrows@.dom().insert(id)
                &&& forall|k: u64| k != id && #[trigger] old(self).escrows@.contains_key(k) ==> final(self).escrows@[k] == old(self).escrows@[k]
                &&& e.id == id && e.depositor == params.depositor && e.beneficiary == params.beneficiary
                &&& e.token == params.token && e.amount == params.amount && e.signers@ == params.signers@
                &&& e.threshold == params.threshold && e.approval_count == 0
                &&& e.release_time == params.release_time && e.refund_time == params.refund_time
                &&& e.arbitrator == params.arbitrator && e.status == EscrowStatus::Pending
                &&& e.created_at == now && e.dispute_reason is None
                &&& final(self).analytics.metrics == after_creation(old(self).analytics.metrics, params.amount)
                &&& final(self).approvals == old(self).approvals
                &&& final(self).arbitration == old(self).arbitration
                &&& final(self).contract == old(self).contract
            },
    {
        match Self::validate_escrow_parameters(&params) {
            Err(e) => { return Err(e); },
            Ok(()) => {},
        }
        let id = self.escrow_count + 1;
        let deposit = Transfer { token: params.token, from: Holder::Account(params.depositor), to: Holder::Contract, amount: params.amount };
        let amount = params.amount;
        let escrow = Escrow {
            id,
            depositor: params.depositor,
            beneficiary: params.beneficiary,
            token: params.token,
            amount: params.amount,
            signers: params.signers,
            threshold: params.threshold,
            approval_count: 0,
            release_time: params.release_time,
            refund_time: params.refund_time,
            arbitrator: params.arbitrator,
            status: EscrowStatus::Pending,
            created_at: now,
            dispute_reason: None,
        };
        self.escrows.insert(id, escrow);
        self.escrow_count = id;
        self.analytics.update_creation(amount);
        Ok((id, deposit))
    }

    /// `signer` approves escrow `escrow_id`; its weight is added to the
    /// approvals.  Returns the new approval total.
    pub fn approve_release(&mut self, escrow_id: u64, signer: AccountId) -> (r: Result<u32, EscrowError>)
        requires
            old(self).wf(),
            old(self).escrows@.contains_key(escrow_id) ==> {
                let e = old(self).escrow(escrow_id);
                is_signer(e.signers@, signer) ==> e.approval_count + signer_weight(e.signers@, signer) <= u32::MAX
            },
        ensures
            final(self).wf(),
            !old(self).escrows@.contains_key(escrow_id) ==>
                r == Err::<u32, EscrowError>(EscrowError::EscrowNotFound) && *final(self) == *old(self),
            old(self).escrows@.contains_key(escrow_id) ==> {
                let e = old(self).escrow(escrow_id);
                let key = EscrowApprovalKey { escrow_id, signer };
                if e.status != EscrowStatus::Pending {
                    r == Err::<u32, EscrowError>(EscrowError::EscrowNotPending) && *final(self) == *old(self)
                } else if !is_signer(e.signers@, signer) {
                    r == Err::<u32, EscrowError>(EscrowError::SignerNotAuthorized) && *final(self) == *old(self)
                } else if old(self).approvals@.contains(key) {
                    r == Err::<u32, EscrowError>(EscrowError::SignerAlreadyApproved) && *final(self) == *old(self)
                } else {
                    let count = (e.approval_count + signer_weight(e.signers@, signer)) as u32;
                    &&& r == Ok::<u32, EscrowError>(count)
                    &&& final(self).approvals@ == old(self).approvals@.insert(key)
                    &&& final(self).escrows@ == old(self).escrows@.insert(escrow_id, Escrow { approval_count: count, ..e })
                    &&& final(self).escrow_count == old(self).escrow_count
                    &&& final(self).arbitration == old(self).arbitration
                    &&& final(self).analytics == old(self).analytics
                    &&& final(self).contract == old(self).contract
                }
            },
    {
        let weight = match self.escrows.get(escrow_id) {
            None => { return Err(EscrowError::EscrowNotFound); },
            Some(e) => {
                if e.status != EscrowStatus::Pending {
                    return Err(EscrowError::EscrowNotPending);
                }
                match Self::find_signer(&e.signers, signer) {
                    Some(w) => w,
                    None => { return Err(EscrowError::SignerNotAuthorized); },
                }
            },
        };
        let key = EscrowApprovalKey { escrow_id, signer };
        if self.approvals.has_approved(&key) {
            return Err(EscrowError::SignerAlreadyApproved);
        }
        let _ = self.approvals.approve(&key);
        let mut e = self.escrows.remove(escrow_id).unwrap();
        e.approval_count = e.approval_count + weight;
        let count = e.approval_count;
        self.escrows.insert(escrow_id, e);
        proof {
            let e0 = old(self).escrow(escrow_id);
            assert(self.escrows@ =~= old(self).escrows@.insert(escrow_id, Escrow { approval_count: count, ..e0 }));
        }
        Ok(count)
    }

    /// `caller` releases escrow `escrow_id` to its beneficiary at `now`:
    /// the escrow must be pending, the caller a party or signer, the
    /// approvals at the threshold and the release time reached.  Returns the
    /// payout to make.
    pub fn release(&mut self, escrow_id: u64, caller: AccountId, now: u64) -> (r: Result<Transfer, EscrowError>)
        requires
            old(self).wf(),
        ensures
            final(self).wf(),
            !old(self).escrows@.contains_key(escrow_id) ==>
                r == Err::<Transfer, EscrowError>(EscrowError::EscrowNotFound) && *final(self) == *old(self),
            old(self).escrows@.contains_key(escrow_id) ==> {
                let e = old(self).escrow(escrow_id);
                match release_error(e, caller, now) {
                    Some(err) => r == Err::<Transfer, EscrowError>(err) && *final(self) == *old(self),
                    None => {
                        &&& r == Ok::<Transfer, EscrowError>(Transfer {
                            token: e.token, from: Holder::Contract, to: Holder::Account(e.beneficiary), amount: e.amount,
                        })
                        &&& final(self).escrows@ == old(self).escrows@.insert(escrow_id, Escrow { status: EscrowStatus::Released, ..e })
                        &&& final(self).only_escrow_changed(old(self))
                    },
                }
            },
    {
        let payout = match self.escrows.get(escrow_id) {
            None => { return Err(EscrowError::EscrowNotFound); },
            Some(e) => {
                if e.status != EscrowStatus::Pending {
                    return Err(EscrowError::EscrowNotPending);
                }
                if caller != e.depositor && caller != e.beneficiary && Self::find_signer(&e.signers, caller).is_none() {
                    return Err(EscrowError::CallerNotAuthorized);
                }
                if e.approval_count < e.threshold {
                    return Err(EscrowError::InsufficientApprovals);
                }
                if let Some(t) = e.release_time {
                    if now < t {
                        return Err(EscrowError::ReleaseTimeNotReached);
                    }
                }
                Transfer { token: e.token, from: Holder::Contract, to: Holder::Account(e.beneficiary), amount: e.amount }
            },
        };
        self.set_status(escrow_id, EscrowStatus::Released);
        Ok(payout)
    }

    /// Put `status` on escrow `escrow_id`, nothing else changing.
    fn set_status(&mut self, escrow_id: u64, status: EscrowStatus)
        requires
            old(self).wf(),
            old(self).escrows@.contains_key(escrow_id),
        ensures
            final(self).wf(),
            final(self).escrows@ == old(self).escrows@.insert(escrow_id, Escrow { status, ..old(self).escrow(escrow_id) }),
            final(self).only_escrow_changed(old(self)),
    {
        let mut e = self.escrows.remove(escrow_id).unwrap();
        e.status = status;
        self.escrows.insert(escrow_id, e);
        proof {
            assert(self.escrows@ =~= old(self).escrows@.insert(escrow_id, Escrow { status, ..old(self).escrow(escrow_id) }));
        }
    }

    /// The depositor takes escrow `escrow_id` back at `now`, once its refund
    /// time has come.  Returns the payout to make.
    pub fn refund(&mut self, escrow_id: u64, depositor: AccountId, now: u64) -> (r: Result<Transfer, EscrowError>)
        requires
            old(self).wf(),
        ensures
            final(self).wf(),
            !old(self).escrows@.contains_key(escrow_id) ==>
                r == Err::<Transfer, EscrowError>(EscrowError::EscrowNotFound) && *final(self) == *old(self),
            old(self).escrows@.contains_key(escrow_id) ==> {
                let e = old(self).escrow(escrow_id);
                if e.status != EscrowStatus::Pending {
                    r == Err::<Transfer, EscrowError>(EscrowError::EscrowNotPending) && *final(self) == *old(self)
                } else if depositor != e.depositor {
                    r == Err::<Transfer, EscrowError>(EscrowError::OnlyDepositorCanRefund) && *final(self) == *old(self)
                } else if e.refund_time is None {
                    r == Err::<Transfer, EscrowError>(EscrowError::RefundNotEnabled) && *final(self) == *old(self)
                } else if now < e.refund_time->0 {
                    r == Err::<Transfer, EscrowError>(EscrowError::RefundTimeNotReached) && *final(self) == *old(self)
                } else {
                    &&& r == Ok::<Transfer, EscrowError>(Transfer {
                        token: e.token, from: Holder::Contract, to: Holder::Account(e.depositor), amount: e.amount,
                    })
                    &&& final(self).escrows@ == old(self).escrows@.insert(escrow_id, Escrow { status: EscrowStatus::Refunded, ..e })
                    &&& final(self).only_escrow_changed(old(self))
                }
            },
    {
        let payout = match self.escrows.get(escrow_id) {
            None => { return Err(EscrowError::EscrowNotFound); },
            Some(e) => {
                if e.status != EscrowStatus::Pending {
                    return Err(EscrowError::EscrowNotPending);
                }
                if depositor != e.depositor {
                    return Err(EscrowError::OnlyDepositorCanRefund);
                }
                let refund_time = match e.refund_time {
                    Some(t) => t,
                    None => { return Err(EscrowError::RefundNotEnabled); },
                };
                if now < refund_time {
                    return Err(EscrowError::RefundTimeNotReached);
                }
                Transfer { token: e.token, from: Holder::Contract, to: Holder::Account(e.depositor), amount: e.amount }
            },
        };
        self.set_status(escrow_id, EscrowStatus::Refunded);
        Ok(payout)
    }

    /// The depositor calls off escrow `escrow_id` before anyone approved it.
    /// Returns the payout to make.
    pub fn cancel(&mut self, escrow_id: u64, depositor: AccountId) -> (r: Result<Transfer, EscrowError>)
        requires
            old(self).wf(),
        ensures
            final(self).wf(),
            !old(self).escrows@.contains_key(escrow_id) ==>
                r == Err::<Transfer, EscrowError>(EscrowError::EscrowNotFound) && *final(self) == *old(self),
            old(self).escrows@.contains_key(escrow_id) ==> {
                let e = old(self).escrow(escrow_id);
                if e.status != EscrowStatus::Pending {
                    r == Err::<Transfer, EscrowError>(EscrowError::EscrowNotPending) && *final(self) == *old(self)
                } else if depositor != e.depositor {
                    r == Err::<Transfer, EscrowError>(EscrowError::OnlyDepositorCanCancel) && *final(self) == *old(self)
                } else if e.approval_count > 0 {
                    r == Err::<Transfer, EscrowError>(EscrowError::CannotCancelAfterApprovals) && *final(self) == *old(self)
                } else {
                    &&& r == Ok::<Transfer, EscrowError>(Transfer {
                        token: e.token, from: Holder::Contract, to: Holder::Account(e.depositor), amount: e.amount,
                    })
                    &&& final(self).escrows@ == old(self).escrows@.insert(escrow_id, Escrow { status: EscrowStatus::Cancelled, ..e })
                    &&& final(self).only_escrow_changed(old(self))
                }
            },
    {
        let payout = match self.escrows.get(escrow_id) {
            None => { return Err(EscrowError::EscrowNotFound); },
            Some(e) => {
                if e.status != EscrowStatus::Pending {
                    return Err(EscrowError::EscrowNotPending);
                }
                if depositor != e.depositor {
                    return Err(EscrowError::OnlyDepositorCanCancel);
                }
                if e.approval_count > 0 {
                    return Err(EscrowError::CannotCancelAfterApprovals);
                }
                Transfer { token: e.token, from: Holder::Contract, to: Holder::Account(e.depositor), amount: e.amount }
            },
        };
        self.set_status(escrow_id, EscrowStatus::Cancelled);
        Ok(payout)
    }

    /// A party disputes escrow `escrow_id` for `reason`.  An escrow without
    /// an arbitrator gets the first active professional one.
    pub fn dispute(&mut self, escrow_id: u64, disputer: AccountId, reason: Vec<u8>) -> (r: Result<(), EscrowError>)
        requires
            old(self).wf(),
            old(self).escrows@.contains_key(escrow_id) && old(self).analytics.metrics.total_disputes == u64::MAX
                ==> old(self).analytics.metrics.resets < u32::MAX,
        ensures
            final(self).wf(),
            !old(self).escrows@.contains_key(escrow_id) ==>
                r == Err::<(), EscrowError>(EscrowError::EscrowNotFound) && *final(self) == *old(self),
            old(self).escrows@.contains_key(escrow_id) ==> {
                let e = old(self).escrow(escrow_id);
                let picked = first_active(old(self).arbitration.arbitrators.entries());
                if e.status != EscrowStatus::Pending {
                    r == Err::<(), EscrowError>(EscrowError::EscrowNotPending) && *final(self) == *old(self)
                } else if disputer != e.depositor && disputer != e.beneficiary {
                    r == Err::<(), EscrowError>(EscrowError::OnlyDepositorOrBeneficiaryCanDispute) && *final(self) == *old(self)
                } else if e.arbitrator == old(self).contract && picked is None {
                    r == Err::<(), EscrowError>(EscrowError::ArbitratorNotAuthorized) && *final(self) == *old(self)
                } else {
                    let arbitrator = if e.arbitrator == old(self).contract { picked->0 } else { e.arbitrator };
                    let d = final(self).escrow(escrow_id);
                    &&& r is Ok
                    &&& final(self).escrows@.dom() == old(self).escrows@.dom()
                    &&& forall|k: u64| k != escrow_id && #[trigger] old(self).escrows@.contains_key(k) ==> final(self).escrows@[k] == old(self).escrows@[k]
                    &&& d.status == EscrowStatus::Disputed
                    &&& d.arbitrator == arbitrator
                    &&& d.dispute_reason matches Some(v) && v@ == reason@
                    &&& d.id == e.id && d.depositor == e.depositor && d.beneficiary == e.beneficiary
                    &&& d.token == e.token && d.amount == e.amount && d.approval_count == e.approval_count
                    &&& final(self).analytics.metrics.total_disputes == crate::escrow_analytics::wrap_inc(old(self).analytics.metrics.total_disputes)
                    &&& final(self).escrow_count == old(self).escrow_count
                    &&& final(self).approvals == old(self).approvals
                    &&& final(self).arbitration == old(self).arbitration
                }
            },
    {
        let current = match self.escrows.get(escrow_id) {
            None => { return Err(EscrowError::EscrowNotFound); },
            Some(e) => {
                if e.status != EscrowStatus::Pending {
                    return Err(EscrowError::EscrowNotPending);
                }
                if disputer != e.depositor && disputer != e.beneficiary {
                    return Err(EscrowError::OnlyDepositorOrBeneficiaryCanDispute);
                }
                e.arbitrator
            },
        };
        let arbitrator = if current == self.contract {
            match self.arbitration.pick_arbitrator() {
                Ok(a) => a,
                Err(err) => { return Err(err); },
            }
        } else {
            current
        };
        let mut e = self.escrows.remove(escrow_id).unwrap();
        e.arbitrator = arbitrator;
        e.status = EscrowStatus::Disputed;
        e.dispute_reason = Some(reason);
        self.escrows.insert(escrow_id, e);
        self.analytics.update_dispute();
        Ok(())
    }

    /// The escrow's arbitrator settles a dispute at `now`, paying out as
    /// `outcome` says; a registered professional arbitrator gains
    /// reputation, and the resolution time is recorded.  Returns the payout
    /// to make.
    pub fn resolve(&mut self, escrow_id: u64, arbitrator: AccountId, outcome: DisputeOutcome, now: u64)
        -> (r: Result<Transfer, EscrowError>)
        requires
            old(self).wf(),
            old(self).escrows@.contains_key(escrow_id)
                && old(self).escrow(escrow_id).status == EscrowStatus::Disputed
                && old(self).escrow(escrow_id).arbitrator == arbitrator ==> {
                let m = old(self).analytics.metrics;
                &&& now >= old(self).escrow(escrow_id).created_at
                &&& old(self).arbitration.arbitrators@.contains_key(arbitrator)
                    ==> old(self).arbitration.arbitrators@[arbitrator].total_resolved < u64::MAX
                &&& m.total_resolved < u64::MAX
                &&& m.total_resolved >= 1 ==> m.average_resolution_time * m.total_resolved
                    + (now - old(self).escrow(escrow_id).created_at) <= u64::MAX
            },
        ensures
            final(self).wf(),
            !old(self).escrows@.contains_key(escrow_id) ==>
                r == Err::<Transfer, EscrowError>(EscrowError::EscrowNotFound) && *final(self) == *old(self),
            old(self).escrows@.contains_key(escrow_id) ==> {
                let e = old(self).escrow(escrow_id);
                let (to, status) = match outcome {
                    DisputeOutcome::ReleaseToBeneficiary => (e.beneficiary, EscrowStatus::Released),
                    DisputeOutcome::RefundToDepositor => (e.depositor, EscrowStatus::Refunded),
                };
                if e.status != EscrowStatus::Disputed {
                    r == Err::<Transfer, EscrowError>(EscrowError::EscrowNotInDispute) && *final(self) == *old(self)
                } else if arbitrator != e.arbitrator {
                    r == Err::<Transfer, EscrowError>(EscrowError::OnlyArbitratorCanResolve) && *final(self) == *old(self)
                } else {
                    &&& r == Ok::<Transfer, EscrowError>(Transfer {
                        token: e.token, from: Holder::Contract, to: Holder::Account(to), amount: e.amount,
                    })
                    &&& final(self).escrows@ == old(self).escrows@.insert(escrow_id, Escrow { status, ..e })
                    &&& final(self).analytics.metrics == after_resolution(old(self).analytics.metrics, (now - e.created_at) as u64)
                    &&& old(self).arbitration.arbitrators@.contains_key(arbitrator) ==> {
                        let p = old(self).arbitration.arbitrators@[arbitrator];
                        final(self).arbitration.arbitrators@ == old(self).arbitration.arbitrators@.insert(arbitrator,
                            crate::arbitration::ArbitratorProfile {
                                total_resolved: (p.total_resolved + 1) as u64,
                                reputation_score: next_reputation(p.reputation_score, true),
                                ..p
                            })
                    }
                    &&& !old(self).arbitration.arbitrators@.contains_key(arbitrator) ==> final(self).arbitration == old(self).arbitration
                    &&& final(self).escrow_count == old(self).escrow_count
                    &&& final(self).approvals == old(self).approvals
                    &&& final(self).contract == old(self).contract
                }
            },
    {
        let (payout, status, created_at) = match self.escrows.get(escrow_id) {
            None => { return Err(EscrowError::EscrowNotFound); },
            Some(e) => {
                if e.status != EscrowStatus::Disputed {
                    return Err(EscrowError::EscrowNotInDispute);
                }
                if arbitrator != e.arbitrator {
                    return Err(EscrowError::OnlyArbitratorCanResolve);
                }
                match outcome {
                    DisputeOutcome::ReleaseToBeneficiary => (
                        Transfer { token: e.token, from: Holder::Contract, to: Holder::Account(e.beneficiary), amount: e.amount },
                        EscrowStatus::Released,
                        e.created_at,
                    ),
                    DisputeOutcome::RefundToDepositor => (
                        Transfer { token: e.token, from: Holder::Contract, to: Holder::Account(e.depositor), amount: e.amount },
                        EscrowStatus::Refunded,
                        e.created_at,
                    ),
                }
            },
        };
        let mut e = self.escrows.remove(escrow_id).unwrap();
        e.status = status;
        self.escrows.insert(escrow_id, e);
        proof {
            assert(self.escrows@ =~= old(self).escrows@.insert(escrow_id, Escrow { status, ..old(self).escrow(escrow_id) }));
        }
        let _ = self.arbitration.update_reputation(arbitrator, true);
        self.analytics.update_resolution(now - created_at);
        Ok(payout)
    }

    /// The reason recorded when a stalled escrow is disputed automatically.
    pub open spec fn stall_reason() -> Seq<u8> {
        seq![65u8, 117, 116, 111, 109, 97, 116, 101, 100, 32, 115, 116, 97, 108, 108, 32,
             100, 101, 116, 101, 99, 116, 105, 111, 110]
    }

    /// The bytes of "Automated stall detection".
    fn stall_reason_bytes() -> (v: Vec<u8>)
        ensures
            v@ == Self::stall_reason(),
    {
        let v: Vec<u8> = vec![65u8, 117, 116, 111, 109, 97, 116, 101, 100, 32, 115, 116, 97, 108, 108, 32,
                              100, 101, 116, 101, 99, 116, 105, 111, 110];
        assert(v@ =~= Self::stall_reason());
        v
    }

    /// Dispute escrow `escrow_id` on its own behalf when it has stalled at
    /// `now` (pending seven days without approvals), handing it to the first
    /// active professional arbitrator.  Otherwise nothing happens.
    pub fn auto_check_dispute(&mut self, escrow_id: u64, now: u64) -> (r: Result<(), EscrowError>)
        requires
            old(self).wf(),
            old(self).escrows@.contains_key(escrow_id) && old(self).escrow(escrow_id).status == EscrowStatus::Pending
                ==> old(self).escrow(escrow_id).created_at + STALL_TIMEOUT_SECS <= u64::MAX,
        ensures
            final(self).wf(),
            final(self).only_escrow_changed(old(self)),
            !old(self).escrows@.contains_key(escrow_id) ==>
                r == Err::<(), EscrowError>(EscrowError::EscrowNotFound) && *final(self) == *old(self),
            old(self).escrows@.contains_key(escrow_id) ==> {
                let e = old(self).escrow(escrow_id);
                let picked = first_active(old(self).arbitration.arbitrators.entries());
                if !stalled(e, now) {
                    r is Ok && *final(self) == *old(self)
                } else if picked is None {
                    r == Err::<(), EscrowError>(EscrowError::ArbitratorNotAuthorized) && *final(self) == *old(self)
                } else {
                    let d = final(self).escrow(escrow_id);
                    &&& r is Ok
                    &&& final(self).escrows@.dom() == old(self).escrows@.dom()
                    &&& forall|k: u64| k != escrow_id && #[trigger] old(self).escrows@.contains_key(k) ==> final(self).escrows@[k] == old(self).escrows@[k]
                    &&& d.status == EscrowStatus::Disputed
                    &&& d.arbitrator == picked->0
                    &&& d.dispute_reason matches Some(v) && v@ == Self::stall_reason()
                    &&& d.id == e.id && d.depositor == e.depositor && d.beneficiary == e.beneficiary
                    &&& d.token == e.token && d.amount == e.amount && d.approval_count == e.approval_count
                }
            },
    {
        let is_stalled = match self.escrows.get(escrow_id) {
            None => { return Err(EscrowError::EscrowNotFound); },
            Some(e) => ArbitrationManager::check_stalled_escrow(e, now),
        };
        if !is_stalled {
            return Ok(());
        }
        let arbitrator = match self.arbitration.pick_arbitrator() {
            Ok(a) => a,
            Err(err) => { return Err(err); },
        };
        let mut e = self.escrows.remove(escrow_id).unwrap();
        e.status = EscrowStatus::Disputed;
        e.dispute_reason = Some(Self::stall_reason_bytes());
        e.arbitrator = arbitrator;
        self.escrows.insert(escrow_id, e);
        Ok(())
    }

    /// The escrow `escrow_id`, if any.
    pub fn get_escrow(&self, escrow_id: u64) -> (r: Option<&Escrow>)
        requires
            self.wf(),
        ensures
            match r {
                Some(e) => self.escrows@.contains_key(escrow_id) && *e == self.escrows@[escrow_id],
                None => !self.escrows@.contains_key(escrow_id),
            },
    {
        self.escrows.get(escrow_id)
    }

    /// The number of escrows ever created.
    pub fn get_escrow_count(&self) -> (n: u64)
        ensures
            n == self.escrow_count,
    {
        self.escrow_count
    }

    /// Whether `signer` approved escrow `escrow_id`.
    pub fn has_approved(&self, escrow_id: u64, signer: AccountId) -> (b: bool)
        ensures
            b == self.approvals@.contains(EscrowApprovalKey { escrow_id, signer }),
    {
        self.approvals.has_approved(&EscrowApprovalKey { escrow_id, signer })
    }

    /// The escrow totals.
    pub fn get_metrics(&self) -> (m: EscrowMetrics)
        ensures
            m == self.analytics.metrics,
    {
        self.analytics.get_metrics()
    }
}

/// A settled escrow pays out nothing more: release, refund, cancel and
/// dispute need it pending, and resolution needs it disputed.
pub proof fn law_settled_escrow_pays_out_once(e: Escrow, caller: AccountId, now: u64)
    requires
        settled(e.status),
    ensures
        release_error(e, caller, now) == Some(EscrowError::EscrowNotPending),
        e.status != EscrowStatus::Pending,
        e.status != EscrowStatus::Disputed,
{
}

/// A released escrow had the approvals it needed.
pub proof fn law_release_needs_threshold(e: Escrow, caller: AccountId, now: u64)
    requires
        release_error(e, caller, now) is None,
    ensures
        e.approval_count >= e.threshold,
        e.status == EscrowStatus::Pending,
        caller == e.depositor || caller == e.beneficiary || is_signer(e.signers@, caller),
        e.release_time matches Some(t) ==> now >= t,
{
}

/// An escrow with a release time is never released before it: a release
/// asked for earlier is refused, and when nothing else stands in the way
/// the refusal says the release time is not reached.
pub proof fn law_release_waits_for_release_time(e: Escrow, caller: AccountId, now: u64, t: u64)
    requires
        e.release_time == Some(t),
        now < t,
    ensures
        release_error(e, caller, now) is Some,
        e.status == EscrowStatus::Pending
            && (caller == e.depositor || caller == e.beneficiary || is_signer(e.signers@, caller))
            && e.approval_count >= e.threshold
            ==> release_error(e, caller, now) == Some(EscrowError::ReleaseTimeNotReached),
{
}

} // verus!
