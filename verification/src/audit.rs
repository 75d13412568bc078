//! The audit trail: numbered records of sensitive operations, kept in a
//! circular numbering of at most 100 000 ids, with queries and compliance
//! reports over a period.
use vstd::prelude::*;
use crate::errors::BridgeError;
use crate::id_map::{count_where, IdMap, keys_where, lemma_count_where_step, lemma_entries_len, lemma_keys_where_step};
use crate::types::{copy_bytes, AccountId};

verus! {

/// Ids wrap around after this many records.
pub const MAX_AUDIT_RECORDS: u64 = 100_000;
/// Length of a compliance period (7 days).
pub const COMPLIANCE_PERIOD: u64 = 604_800;

/// The kinds of audited operation.
#[derive(Copy, Clone, Debug, PartialEq, Eq, Structural)]
pub enum OperationType {
    BridgeIn,
    BridgeOut,
    ValidatorAdded,
    ValidatorRemoved,
    EmergencyPause,
    EmergencyResume,
    RoleGranted,
    RoleRevoked,
}

/// One audited operation.
#[derive(Clone, Debug)]
pub struct AuditRecord {
    pub record_id: u64,
    pub operation_type: OperationType,
    pub operator: AccountId,
    pub timestamp: u64,
    pub details: Vec<u8>,
    pub tx_hash: Vec<u8>,
}

/// What an audit record reports about the period it covers.
#[derive(Clone)]
pub struct ComplianceReport {
    pub report_id: u64,
    pub period_start: u64,
    pub period_end: u64,
    pub total_volume: i128,
    pub total_transactions: u64,
    pub unique_users: u32,
    /// Validator changes per operator.
    pub validator_performance: IdMap<u32>,
}

/// Whether `a` and `b` carry the same contents.
pub open spec fn same_record(a: AuditRecord, b: AuditRecord) -> bool {
    &&& a.record_id == b.record_id
    &&& a.operation_type == b.operation_type
    &&& a.operator == b.operator
    &&& a.timestamp == b.timestamp
    &&& a.details@ == b.details@
    &&& a.tx_hash@ == b.tx_hash@
}

/// Whether `r` falls in `[start, end]`.
pub open spec fn in_period(r: AuditRecord, start: u64, end: u64) -> bool {
    start <= r.timestamp <= end
}

/// Whether `r` is a bridge transfer.
pub open spec fn is_transfer(r: AuditRecord) -> bool {
    r.operation_type == OperationType::BridgeIn || r.operation_type == OperationType::BridgeOut
}

/// Whether `r` is a validator change.
pub open spec fn is_validator_change(r: AuditRecord) -> bool {
    r.operation_type == OperationType::ValidatorAdded || r.operation_type == OperationType::ValidatorRemoved
}

/// The operators of the transfers among `s` in `[start, end]`.
pub open spec fn transfer_operators(s: Seq<(u64, AuditRecord)>, start: u64, end: u64) -> Set<AccountId>
    decreases s.len(),
{
    if s.len() == 0 {
        Set::empty()
    } else {
        let rest = transfer_operators(s.drop_last(), start, end);
        let r = s.last().1;
        if in_period(r, start, end) && is_transfer(r) { rest.insert(r.operator) } else { rest }
    }
}

/// The validator changes by `operator` among `s` in `[start, end]`.
pub open spec fn validator_changes(s: Seq<(u64, AuditRecord)>, start: u64, end: u64, operator: AccountId) -> nat
    decreases s.len(),
{
    if s.len() == 0 {
        0
    } else {
        let r = s.last().1;
        validator_changes(s.drop_last(), start, end, operator)
            + if in_period(r, start, end) && is_validator_change(r) && r.operator == operator { 1nat } else { 0nat }
    }
}

/// `amount` as 16 big-endian bytes.
pub open spec fn be_bytes(amount: i128) -> Seq<u8> {
    Seq::new(16, |i: int| (((amount as u128) >> ((8 * (15 - i)) as u128)) & 0xffu128) as u8)
}

/// The ids from `start` to `end`, in order.
pub open spec fn id_range(start: int, end: int) -> Seq<u64> {
    Seq::new((end - start + 1) as nat, |j: int| (start + j) as u64)
}

/// The first id after `counter`, wrapping past the maximum.
pub open spec fn next_id(counter: u64) -> u64 {
    if counter >= MAX_AUDIT_RECORDS { 1 } else { (counter + 1) as u64 }
}

impl AuditRecord {
    /// A copy of the record.
    pub fn duplicate(&self) -> (r: AuditRecord)
        ensures
            same_record(r, *self),
    {
        AuditRecord {
            record_id: self.record_id,
            operation_type: self.operation_type,
            operator: self.operator,
            timestamp: self.timestamp,
            details: copy_bytes(&self.details),
            tx_hash: copy_bytes(&self.tx_hash),
        }
    }
}

/// The audit trail and the compliance reports.
#[derive(Clone)]
pub struct AuditManager {
    pub records: IdMap<AuditRecord>,
    /// The id of the last record written.
    pub audit_counter: u64,
    pub reports: IdMap<ComplianceReport>,
}

impl AuditManager {
    /// Tables are well formed.
    pub open spec fn wf(&self) -> bool {
        &&& self.records.wf()
        &&& self.reports.wf()
        &&& forall|k: u64| #[trigger] self.reports@.contains_key(k) ==> self.reports@[k].validator_performance.wf()
    }

    /// Nothing audited.
    pub fn new() -> (a: Self)
        ensures
            a.wf(),
            a.records@ == Map::<u64, AuditRecord>::empty(),
            a.audit_counter == 0,
            a.reports@ == Map::<u64, ComplianceReport>::empty(),
    {
        AuditManager { records: IdMap::new(), audit_counter: 0, reports: IdMap::new() }
    }

    /// Record an operation of `operation_type` by `operator` at `now`.  It
    /// takes the next id, back at 1 after the maximum, replacing any record
    /// that id held.
    pub fn create_audit_record(
        &mut self,
        operation_type: OperationType,
        operator: AccountId,
        details: Vec<u8>,
        tx_hash: Vec<u8>,
        now: u64,
    ) -> (r: Result<u64, BridgeError>)
        requires
            old(self).wf(),
        ensures
            final(self).wf(),
            ({
                let id = next_id(old(self).audit_counter);
                &&& r == Ok::<u64, BridgeError>(id)
                &&& final(self).audit_counter == id
                &&& final(self).records@ == old(self).records@.insert(id, AuditRecord {
                    record_id: id, operation_type, operator, timestamp: now, details, tx_hash,
                })
                &&& final(self).reports == old(self).reports
            }),
    {
        let mut counter = self.audit_counter;
        if counter >= MAX_AUDIT_RECORDS {
            counter = 0;
        }
        counter = counter + 1;
        let record = AuditRecord { record_id: counter, operation_type, operator, timestamp: now, details, tx_hash };
        self.records.insert(counter, record);
        self.audit_counter = counter;
        Ok(counter)
    }

    /// The record `record_id`, if any.
    pub fn get_audit_record(&self, record_id: u64) -> (r: Option<&AuditRecord>)
        requires
            self.wf(),
        ensures
            match r {
                Some(a) => self.records@.contains_key(record_id) && *a == self.records@[record_id],
                None => !self.records@.contains_key(record_id),
            },
    {
        self.records.get(record_id)
    }

    /// Copies of the records, in id order, whose keys `ids` lists.
    fn copies_of(&self, ids: &Vec<u64>, Ghost(p): Ghost<spec_fn(AuditRecord) -> bool>) -> (out: Vec<AuditRecord>)
        requires
            self.wf(),
            ids@ == keys_where(self.records.entries(), p),
        ensures
            out@.len() == ids@.len(),
            forall|i: int| 0 <= i < ids@.len() ==> self.records@.contains_key(ids@[i])
                && same_record(#[trigger] out@[i], self.records@[ids@[i]]),
    {
        proof { lemma_keys_where_in_map(self.records, p); }
        let mut out: Vec<AuditRecord> = Vec::new();
        let mut i: usize = 0;
        while i < ids.len()
            invariant
                self.wf(),
                i <= ids@.len(),
                out@.len() == i,
                forall|j: int| 0 <= j < ids@.len() ==> #[trigger] self.records@.contains_key(ids@[j]),
                forall|j: int| 0 <= j < i ==> same_record(#[trigger] out@[j], self.records@[ids@[j]]),
            decreases ids@.len() - i,
        {
            assert(self.records@.contains_key(ids@[i as int]));
            let rec = self.records.get(ids[i]).unwrap();
            out.push(rec.duplicate());
            i = i + 1;
        }
        out
    }

    /// The ids of the records satisfying `p`, in id order.
    fn ids_where_time(&self, start_time: u64, end_time: u64) -> (ids: Vec<u64>)
        ensures
            ids@ == keys_where(self.records.entries(), |r: AuditRecord| in_period(r, start_time, end_time)),
    {
        let ghost p = |r: AuditRecord| in_period(r, start_time, end_time);
        let mut result: Vec<u64> = Vec::new();
        let mut i: usize = 0;
        while i < self.records.len()
            invariant
                i <= self.records.entries().len(),
                p == |r: AuditRecord| in_period(r, start_time, end_time),
                result@ == keys_where(self.records.entries().take(i as int), p),
            decreases self.records.entries().len() - i,
        {
            proof { lemma_keys_where_step(self.records.entries(), i as int, p); }
            let t = self.records.value_at(i).timestamp;
            if t >= start_time && t <= end_time {
                result.push(self.records.key_at(i));
            }
            i = i + 1;
        }
        proof { assert(self.records.entries().take(i as int) =~= self.records.entries()); }
        result
    }

    /// Copies of the records with timestamps in `[start_time, end_time]`, in
    /// id order.
    pub fn get_audit_records_by_time(&self, start_time: u64, end_time: u64) -> (out: Vec<AuditRecord>)
        requires
            self.wf(),
        ensures
            ({
                let ids = keys_where(self.records.entries(), |r: AuditRecord| in_period(r, start_time, end_time));
                &&& out@.len() == ids.len()
                &&& forall|i: int| 0 <= i < ids.len() ==> same_record(#[trigger] out@[i], self.records@[ids[i]])
            }),
    {
        let ids = self.ids_where_time(start_time, end_time);
        self.copies_of(&ids, Ghost(|r: AuditRecord| in_period(r, start_time, end_time)))
    }

    /// Copies of the records of `operation_type`, in id order.
    pub fn get_audit_records_by_type(&self, operation_type: OperationType) -> (out: Vec<AuditRecord>)
        requires
            self.wf(),
        ensures
            ({
                let ids = keys_where(self.records.entries(), |r: AuditRecord| r.operation_type == operation_type);
                &&& out@.len() == ids.len()
                &&& forall|i: int| 0 <= i < ids.len() ==> same_record(#[trigger] out@[i], self.records@[ids[i]])
            }),
    {
        let ghost p = |r: AuditRecord| r.operation_type == operation_type;
        let mut ids: Vec<u64> = Vec::new();
        let mut i: usize = 0;
        while i < self.records.len()
            invariant
                i <= self.records.entries().len(),
                p == |r: AuditRecord| r.operation_type == operation_type,
                ids@ == keys_where(self.records.entries().take(i as int), p),
            decreases self.records.entries().len() - i,
        {
            proof { lemma_keys_where_step(self.records.entries(), i as int, p); }
            if self.records.value_at(i).operation_type == operation_type {
                ids.push(self.records.key_at(i));
            }
            i = i + 1;
        }
        proof { assert(self.records.entries().take(i as int) =~= self.records.entries()); }
        self.copies_of(&ids, Ghost(p))
    }

    /// Copies of the records by `operator`, in id order.
    pub fn get_audit_records_by_operator(&self, operator: AccountId) -> (out: Vec<AuditRecord>)
        requires
            self.wf(),
        ensures
            ({
                let ids = keys_where(self.records.entries(), |r: AuditRecord| r.operator == operator);
                &&& out@.len() == ids.len()
                &&& forall|i: int| 0 <= i < ids.len() ==> same_record(#[trigger] out@[i], self.records@[ids[i]])
            }),
    {
        let ghost p = |r: AuditRecord| r.operator == operator;
        let mut ids: Vec<u64> = Vec::new();
        let mut i: usize = 0;
        while i < self.records.len()
            invariant
                i <= self.records.entries().len(),
                p == |r: AuditRecord| r.operator == operator,
                ids@ == keys_where(self.records.entries().take(i as int), p),
            decreases self.records.entries().len() - i,
        {
            proof { lemma_keys_where_step(self.records.entries(), i as int, p); }
            if self.records.value_at(i).operator == operator {
                ids.push(self.records.key_at(i));
            }
            i = i + 1;
        }
        proof { assert(self.records.entries().take(i as int) =~= self.records.entries()); }
        self.copies_of(&ids, Ghost(p))
    }

    /// Build and store the compliance report of `[period_start, period_end]`
    /// at `now` (its id is `now`): the transfers, their distinct operators,
    /// and the validator changes per operator.  The volume is not derived
    /// from the records and stays 0.
    pub fn generate_compliance_report(&mut self, period_start: u64, period_end: u64, now: u64) -> (r: Result<u64, BridgeError>)
        requires
            old(self).wf(),
            old(self).records.entries().len() <= u32::MAX,
        ensures
            final(self).wf(),
            r == Ok::<u64, BridgeError>(now),
            final(self).records == old(self).records,
            final(self).audit_counter == old(self).audit_counter,
            final(self).reports@.dom() == old(self).reports@.dom().insert(now),
            forall|k: u64| k != now && #[trigger] old(self).reports@.contains_key(k) ==> final(self).reports@[k] == old(self).reports@[k],
            ({
                let s = old(self).records.entries();
                let rep = final(self).reports@[now];
                &&& rep.report_id == now && rep.period_start == period_start && rep.period_end == period_end
                &&& rep.total_volume == 0
                &&& rep.total_transactions == count_where(s, |a: AuditRecord| in_period(a, period_start, period_end) && is_transfer(a))
                &&& rep.unique_users == transfer_operators(s, period_start, period_end).len()
                &&& forall|o: AccountId| #[trigger] rep.validator_performance@.contains_key(o)
                    <==> validator_changes(s, period_start, period_end, o) > 0
                &&& forall|o: AccountId| rep.validator_performance@.contains_key(o)
                    ==> #[trigger] rep.validator_performance@[o] == validator_changes(s, period_start, period_end, o)
            }),
    {
        let ghost s = self.records.entries();
        let ghost pt = |a: AuditRecord| in_period(a, period_start, period_end) && is_transfer(a);
        let mut total_transactions: u64 = 0;
        let mut users: IdMap<bool> = IdMap::new();
        let mut perf: IdMap<u32> = IdMap::new();
        let n = self.records.len();
        let mut i: usize = 0;
        while i < n
            invariant
                s == self.records.entries(),
                n == s.len(),
                n <= u32::MAX,
                i <= n,
                pt == |a: AuditRecord| in_period(a, period_start, period_end) && is_transfer(a),
                total_transactions == count_where(s.take(i as int), pt),
                total_transactions <= i,
                users.wf(),
                users@.dom() == transfer_operators(s.take(i as int), period_start, period_end),
                perf.wf(),
                forall|o: AccountId| #[trigger] perf@.contains_key(o) <==> validator_changes(s.take(i as int), period_start, period_end, o) > 0,
                forall|o: AccountId| perf@.contains_key(o) ==> #[trigger] perf@[o] == validator_changes(s.take(i as int), period_start, period_end, o),
                forall|o: AccountId| #[trigger] validator_changes(s.take(i as int), period_start, period_end, o) <= i,
            decreases n - i,
        {
            proof {
                lemma_count_where_step(s, i as int, pt);
                assert(s.take(i as int + 1).drop_last() =~= s.take(i as int));
                assert(s.take(i as int + 1).last() == s[i as int]);
            }
            let (ts, ty, op) = {
                let rec = self.records.value_at(i);
                (rec.timestamp, rec.operation_type, rec.operator)
            };
            proof {
                assert forall|o: AccountId| #[trigger] validator_changes(s.take(i as int + 1), period_start, period_end, o) <= i + 1 by {
                    assert(validator_changes(s.take(i as int), period_start, period_end, o) <= i);
                }
            }
            let in_range = ts >= period_start && ts <= period_end;
            if in_range && (ty == OperationType::BridgeIn || ty == OperationType::BridgeOut) {
                total_transactions = total_transactions + 1;
                users.insert(op, true);
                proof {
                    assert(users@.dom() =~= transfer_operators(s.take(i as int + 1), period_start, period_end));
                }
            } else {
                proof {
                    assert(users@.dom() =~= transfer_operators(s.take(i as int + 1), period_start, period_end));
                }
            }
            if in_range && (ty == OperationType::ValidatorAdded || ty == OperationType::ValidatorRemoved) {
                let current: u32 = match perf.get(op) {
                    Some(c) => *c,
                    None => 0,
                };
                perf.insert(op, current + 1);
            }
            i = i + 1;
        }
        proof {
            assert(s.take(n as int) =~= s);
            lemma_entries_len(users);
            lemma_transfer_operators_bounded(s, period_start, period_end);
        }
        let unique_users = users.len() as u32;
        let report = ComplianceReport {
            report_id: now,
            period_start,
            period_end,
            total_volume: 0,
            total_transactions,
            unique_users,
            validator_performance: perf,
        };
        self.reports.insert(now, report);
        Ok(now)
    }

    /// The compliance report `report_id`, if any.
    pub fn get_compliance_report(&self, report_id: u64) -> (r: Option<&ComplianceReport>)
        requires
            self.wf(),
        ensures
            match r {
                Some(c) => self.reports@.contains_key(report_id) && *c == self.reports@[report_id],
                None => !self.reports@.contains_key(report_id),
            },
    {
        self.reports.get(report_id)
    }

    /// The id of the last record written.
    pub fn get_audit_count(&self) -> (n: u64)
        ensures
            n == self.audit_counter,
    {
        self.audit_counter
    }

    /// The first id `get_recent_audit_records` looks at: the last `count`
    /// ids end at the last id written, and none are asked for when `count`
    /// is zero.
    pub open spec fn recent_start(&self, count: u32) -> int {
        if count == 0 {
            self.audit_counter + 1
        } else if self.audit_counter > count {
            self.audit_counter - count + 1
        } else {
            1
        }
    }

    /// Whether record `k` exists, as a function value.
    pub open spec fn present(&self) -> spec_fn(u64) -> bool {
        |k: u64| self.records@.contains_key(k)
    }

    /// Copies of the last `count` records: those with ids from `count - 1`
    /// below the last id (or from 1 when the last id is not above `count`)
    /// to the last id; missing ids are skipped, and a `count` of zero gives
    /// none.
    pub fn get_recent_audit_records(&self, count: u32) -> (out: Vec<AuditRecord>)
        requires
            self.wf(),
        ensures
            ({
                let start = self.recent_start(count);
                let ids = id_range(start, self.audit_counter as int).filter(self.present());
                &&& self.audit_counter >= start ==> out@.len() == ids.len()
                    && forall|i: int| 0 <= i < ids.len() ==> same_record(#[trigger] out@[i], self.records@[ids[i]])
                &&& self.audit_counter < start ==> out@.len() == 0
            }),
    {
        let counter = self.audit_counter;
        let mut out: Vec<AuditRecord> = Vec::new();
        if count == 0 {
            return out;
        }
        let start: u64 = if counter > count as u64 { counter - count as u64 + 1 } else { 1 };
        if counter < start {
            return out;
        }
        let ghost pred = self.present();
        let ghost all = id_range(start as int, counter as int);
        let total: u64 = counter - start + 1;
        let mut done: u64 = 0;
        proof {
            reveal(Seq::filter);
            assert(all.take(0).filter(pred) =~= Seq::<u64>::empty());
        }
        while done < total
            invariant
                self.wf(),
                1 <= start <= counter,
                total == counter - start + 1,
                done <= total,
                counter == self.audit_counter,
                all == id_range(start as int, counter as int),
                all.len() == total,
                pred == self.present(),
                out@.len() == all.take(done as int).filter(pred).len(),
                forall|i: int| 0 <= i < out@.len() ==> same_record(#[trigger] out@[i], self.records@[all.take(done as int).filter(pred)[i]]),
            decreases total - done,
        {
            let id = start + done;
            proof {
                assert(all[done as int] == id);
                assert(all.take(done as int + 1) =~= all.take(done as int).push(id));
                all.take(done as int).lemma_filter_push(id, pred);
            }
            match self.records.get(id) {
                Some(rec) => { out.push(rec.duplicate()); },
                None => {},
            }
            done = done + 1;
        }
        proof { assert(all.take(total as int) =~= all); }
        out
    }

    /// Record a bridge transfer of `amount` on `chain_id`: its details are
    /// the amount's 16 big-endian bytes.
    pub fn log_bridge_operation(&mut self, is_outgoing: bool, operator: AccountId, amount: i128, chain_id: u32, tx_hash: Vec<u8>, now: u64)
        -> (r: Result<u64, BridgeError>)
        requires
            old(self).wf(),
        ensures
            final(self).wf(),
            ({
                let id = next_id(old(self).audit_counter);
                let rec = final(self).records@[id];
                &&& r == Ok::<u64, BridgeError>(id)
                &&& final(self).audit_counter == id
                &&& final(self).records@.dom() == old(self).records@.dom().insert(id)
                &&& forall|k: u64| k != id && #[trigger] old(self).records@.contains_key(k) ==> final(self).records@[k] == old(self).records@[k]
                &&& rec.record_id == id && rec.operator == operator && rec.timestamp == now && rec.tx_hash == tx_hash
                &&& rec.operation_type == if is_outgoing { OperationType::BridgeOut } else { OperationType::BridgeIn }
                &&& rec.details@ == be_bytes(amount)
            }),
    {
        let operation_type = if is_outgoing { OperationType::BridgeOut } else { OperationType::BridgeIn };
        let details = Self::amount_bytes(amount);
        self.create_audit_record(operation_type, operator, details, tx_hash, now)
    }

    /// `amount` as 16 big-endian bytes.
    pub fn amount_bytes(amount: i128) -> (v: Vec<u8>)
        ensures
            v@ == be_bytes(amount),
    {
        let u = amount as u128;
        let mut v: Vec<u8> = Vec::new();
        let mut i: u128 = 0;
        while i < 16
            invariant
                i <= 16,
                u == amount as u128,
                v@.len() == i,
                forall|j: int| 0 <= j < i ==> #[trigger] v@[j] == be_bytes(amount)[j],
            decreases 16 - i,
        {
            let shift: u128 = 8 * (15 - i);
            let b = ((u >> shift) & 0xff) as u8;
            v.push(b);
            i = i + 1;
        }
        assert(v@ =~= be_bytes(amount));
        v
    }

    /// Record a validator being added or removed by `admin`.
    pub fn log_validator_operation(&mut self, is_added: bool, validator: AccountId, admin: AccountId, tx_hash: Vec<u8>, now: u64)
        -> (r: Result<u64, BridgeError>)
        requires
            old(self).wf(),
        ensures
            final(self).wf(),
            ({
                let id = next_id(old(self).audit_counter);
                &&& r == Ok::<u64, BridgeError>(id)
                &&& final(self).audit_counter == id
                &&& final(self).records@.dom() == old(self).records@.dom().insert(id)
                &&& final(self).records@[id].operation_type == if is_added { OperationType::ValidatorAdded } else { OperationType::ValidatorRemoved }
                &&& final(self).records@[id].operator == admin
                &&& final(self).records@[id].details@.len() == 0
            }),
    {
        let operation_type = if is_added { OperationType::ValidatorAdded } else { OperationType::ValidatorRemoved };
        self.create_audit_record(operation_type, admin, Vec::new(), tx_hash, now)
    }

    /// Record an emergency pause or resume by `operator` for `reason`.
    pub fn log_emergency_operation(&mut self, is_pause: bool, operator: AccountId, reason: Vec<u8>, tx_hash: Vec<u8>, now: u64)
        -> (r: Result<u64, BridgeError>)
        requires
            old(self).wf(),
        ensures
            final(self).wf(),
            ({
                let id = next_id(old(self).audit_counter);
                &&& r == Ok::<u64, BridgeError>(id)
                &&& final(self).audit_counter == id
                &&& final(self).records@ == old(self).records@.insert(id, AuditRecord {
                    record_id: id,
                    operation_type: if is_pause { OperationType::EmergencyPause } else { OperationType::EmergencyResume },
                    operator,
                    timestamp: now,
                    details: reason,
                    tx_hash,
                })
            }),
    {
        let operation_type = if is_pause { OperationType::EmergencyPause } else { OperationType::EmergencyResume };
        self.create_audit_record(operation_type, operator, reason, tx_hash, now)
    }

    /// Drop the records older than `before_timestamp`; returns how many were
    /// dropped.
    pub fn clear_old_records(&mut self, before_timestamp: u64) -> (r: Result<u32, BridgeError>)
        requires
            old(self).wf(),
            old(self).records.entries().len() <= u32::MAX,
        ensures
            final(self).wf(),
            r == Ok::<u32, BridgeError>(count_where(old(self).records.entries(), |a: AuditRecord| a.timestamp < before_timestamp) as u32),
            final(self).records@ == old(self).records@.restrict(
                old(self).records@.dom().filter(|k: u64| old(self).records@[k].timestamp >= before_timestamp)),
            final(self).audit_counter == old(self).audit_counter,
            final(self).reports == old(self).reports,
    {
        let ghost s = self.records.entries();
        let ghost p = |a: AuditRecord| a.timestamp < before_timestamp;
        let ghost target = old(self).records@.restrict(
            old(self).records@.dom().filter(|k: u64| old(self).records@[k].timestamp >= before_timestamp));
        let mut cleared: u32 = 0;
        let mut to_drop: Vec<u64> = Vec::new();
        let n = self.records.len();
        let mut i: usize = 0;
        while i < n
            invariant
                s == self.records.entries(),
                n == s.len(),
                n <= u32::MAX,
                i <= n,
                p == |a: AuditRecord| a.timestamp < before_timestamp,
                cleared == count_where(s.take(i as int), p),
                cleared <= i,
                to_drop@ == keys_where(s.take(i as int), p),
            decreases n - i,
        {
            proof {
                lemma_count_where_step(s, i as int, p);
                lemma_keys_where_step(s, i as int, p);
            }
            if self.records.value_at(i).timestamp < before_timestamp {
                cleared = cleared + 1;
                to_drop.push(self.records.key_at(i));
            }
            i = i + 1;
        }
        let mut j: usize = 0;
        proof {
            assert(s.take(n as int) =~= s);
            lemma_keys_where_in_map(old(self).records, p);
        }
        while j < to_drop.len()
            invariant
                self.wf(),
                j <= to_drop@.len(),
                to_drop@ == keys_where(s, p),
                s == old(self).records.entries(),
                old(self).records.wf(),
                p == |a: AuditRecord| a.timestamp < before_timestamp,
                forall|k: u64| #[trigger] old(self).records@.contains_key(k) && p(old(self).records@[k])
                    <==> to_drop@.contains(k),
                forall|k: u64| #[trigger] self.records@.contains_key(k) <==>
                    (old(self).records@.contains_key(k) && !to_drop@.take(j as int).contains(k)),
                forall|k: u64| self.records@.contains_key(k) ==> #[trigger] self.records@[k] == old(self).records@[k],
                self.audit_counter == old(self).audit_counter,
                self.reports == old(self).reports,
            decreases to_drop@.len() - j,
        {
            let k = to_drop[j];
            let ghost prev = self.records@;
            let _ = self.records.remove(k);
            proof {
                broadcast use vstd::seq_lib::group_seq_properties;
                assert(to_drop@.take(j as int + 1) =~= to_drop@.take(j as int).push(k));
                assert forall|x: u64| #[trigger] self.records@.contains_key(x) <==>
                    (old(self).records@.contains_key(x) && !to_drop@.take(j as int + 1).contains(x)) by {
                    assert(self.records@.contains_key(x) == (prev.contains_key(x) && x != k));
                    assert(to_drop@.take(j as int + 1).contains(x) == (to_drop@.take(j as int).contains(x) || x == k));
                }
            }
            j = j + 1;
        }
        proof {
            assert(to_drop@.take(j as int) =~= to_drop@);
            assert(self.records@ =~= target);
        }
        Ok(cleared)
    }
}

/// Every key that `keys_where` lists is in the map with a value that
/// satisfies `p`, and every such key is listed.
pub proof fn lemma_keys_where_in_map(m: IdMap<AuditRecord>, p: spec_fn(AuditRecord) -> bool)
    requires
        m.wf(),
    ensures
        forall|i: int| 0 <= i < keys_where(m.entries(), p).len()
            ==> #[trigger] m@.contains_key(keys_where(m.entries(), p)[i]),
        forall|k: u64| #[trigger] m@.contains_key(k) && p(m@[k]) <==> keys_where(m.entries(), p).contains(k),
{
    crate::id_map::lemma_keys_where_members(m, p);
}

/// The distinct operators of transfers are no more than the records.
pub proof fn lemma_transfer_operators_bounded(s: Seq<(u64, AuditRecord)>, start: u64, end: u64)
    ensures
        transfer_operators(s, start, end).finite(),
        transfer_operators(s, start, end).len() <= s.len(),
    decreases s.len(),
{
    if s.len() > 0 {
        lemma_transfer_operators_bounded(s.drop_last(), start, end);
    }
}

/// A record id is never 0 and never passes the maximum.
pub proof fn law_record_ids_stay_in_range(counter: u64)
    ensures
        1 <= next_id(counter) <= MAX_AUDIT_RECORDS,
{
}

/// Filtering keeps a sequence whole when every element passes.
pub proof fn lemma_filter_keeps_all<T>(s: Seq<T>, p: spec_fn(T) -> bool)
    requires
        forall|i: int| 0 <= i < s.len() ==> p(#[trigger] s[i]),
    ensures
        s.filter(p) == s,
    decreases s.len(),
{
    reveal(Seq::filter);
    if s.len() > 0 {
        let t = s.drop_last();
        assert forall|i: int| 0 <= i < t.len() implies p(#[trigger] t[i]) by {
            assert(t[i] == s[i]);
        }
        lemma_filter_keeps_all(t, p);
        assert(p(s[s.len() - 1]));
        assert(t.push(s.last()) =~= s);
    }
}

/// When every id from 1 to the last one written holds a record, the recent
/// records asked for with `count` are the last `count` ids in increasing
/// order, or all of them when fewer were written.
pub proof fn law_recent_records_are_the_last_count(m: AuditManager, count: u32)
    requires
        forall|k: u64| 1 <= k <= m.audit_counter ==> #[trigger] m.records@.contains_key(k),
    ensures
        ({
            let ids = id_range(m.recent_start(count), m.audit_counter as int).filter(m.present());
            let n: int = if count <= m.audit_counter { count as int } else { m.audit_counter as int };
            &&& ids.len() == n
            &&& forall|i: int| 0 <= i < n ==> #[trigger] ids[i] == m.audit_counter - n + 1 + i
        }),
{
    let start = m.recent_start(count);
    let r = id_range(start, m.audit_counter as int);
    assert forall|i: int| 0 <= i < r.len() implies (m.present())(#[trigger] r[i]) by {
        assert(r[i] == start + i);
    }
    lemma_filter_keeps_all(r, m.present());
}

} // verus!
