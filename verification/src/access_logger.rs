//! Access logging for security audits.
//!
//! Every logged call gets the next entry id, its caller, operation tag,
//! outcome and ledger time, and counts towards its caller's call count for
//! the hour (window) it falls in.  Queries scan from the newest entry down.
use vstd::prelude::*;
use crate::id_map::IdMap;
use crate::types::{AccountId, copy_bytes, bytes_equal};

verus! {

/// Size of a call-count window (one hour).
pub const WINDOW_SIZE: u64 = 3600;

/// The outcome of a logged call.
#[derive(Copy, Clone, Debug, PartialEq, Eq, Structural)]
pub enum AccessOutcome {
    Success,
    Failure { error_code: u32 },
}

/// One logged call.
#[derive(Clone, Debug)]
pub struct AccessLogEntry {
    pub entry_id: u64,
    pub caller: AccountId,
    /// The operation tag.
    pub operation: Vec<u8>,
    pub outcome: AccessOutcome,
    pub ledger_timestamp: u64,
    pub window_start: u64,
}

/// A filter over logged calls; `None` fields do not filter.
#[derive(Clone, Debug)]
pub struct AuditQuery {
    pub caller: Option<AccountId>,
    pub operation: Option<Vec<u8>>,
    pub outcome_filter: Option<AccessOutcome>,
    pub from_timestamp: Option<u64>,
    pub to_timestamp: Option<u64>,
    /// Most entries to return.
    pub limit: u32,
}

/// The event published for a logged call.
#[derive(Clone, Debug)]
pub struct AccessAttemptEvent {
    pub entry_id: u64,
    pub caller: AccountId,
    pub operation: Vec<u8>,
    pub success: bool,
    pub error_code: u32,
    pub timestamp: u64,
}

/// Whether `entry` passes every filter that `query` sets.
pub open spec fn matches(entry: AccessLogEntry, query: AuditQuery) -> bool {
    &&& (query.caller matches Some(c) ==> entry.caller == c)
    &&& (query.operation matches Some(op) ==> entry.operation@ == op@)
    &&& (query.outcome_filter matches Some(o) ==> entry.outcome == o)
    &&& (query.from_timestamp matches Some(from) ==> entry.ledger_timestamp >= from)
    &&& (query.to_timestamp matches Some(to) ==> entry.ledger_timestamp <= to)
}

/// The ids of at most `limit` entries matching `query`, scanning ids from
/// `id` down to 0.
pub open spec fn scan(logs: Map<u64, AccessLogEntry>, query: AuditQuery, id: int, limit: nat) -> Seq<u64>
    decreases id + 1,
{
    if id < 0 || limit == 0 {
        Seq::empty()
    } else if logs.contains_key(id as u64) && matches(logs[id as u64], query) {
        seq![id as u64] + scan(logs, query, id - 1, (limit - 1) as nat)
    } else {
        scan(logs, query, id - 1, limit)
    }
}

/// The ids `query_logs` returns: none for a zero limit or an empty log,
/// else the scan from the newest id down.
pub open spec fn query_ids(logs: Map<u64, AccessLogEntry>, query: AuditQuery, total: u64) -> Seq<u64> {
    if query.limit == 0 || total == 0 { Seq::empty() } else { scan(logs, query, total as int, query.limit as nat) }
}

/// The stored log.
#[derive(Clone)]
pub struct AccessLogger {
    /// Entries by id.
    pub logs: IdMap<AccessLogEntry>,
    /// The last entry id handed out.
    pub log_counter: u64,
    /// Calls per caller per window start.
    pub temporal: IdMap<IdMap<u32>>,
}

impl AccessLogger {
    pub open spec fn wf(&self) -> bool {
        &&& self.logs.wf()
        &&& self.temporal.wf()
        &&& forall|c: u64| #[trigger] self.temporal@.contains_key(c) ==> self.temporal@[c].wf()
    }

    /// Calls recorded for `caller` in the window starting at `window_start`.
    pub open spec fn pattern(&self, caller: AccountId, window_start: u64) -> u32 {
        if self.temporal@.contains_key(caller) && self.temporal@[caller]@.contains_key(window_start) {
            self.temporal@[caller]@[window_start]
        } else {
            0
        }
    }

    /// An empty log.
    pub fn new() -> (l: Self)
        ensures
            l.wf(),
            l.log_counter == 0,
            l.logs@ == Map::<u64, AccessLogEntry>::empty(),
    {
        AccessLogger { logs: IdMap::new(), log_counter: 0, temporal: IdMap::new() }
    }

    /// Record a call by `caller` to `operation` with `outcome` at ledger time
    /// `now`: the entry gets the next id, the caller's count for the window
    /// containing `now` goes up by one, and the event to publish is returned.
    pub fn log_access(&mut self, caller: AccountId, operation: Vec<u8>, outcome: AccessOutcome, now: u64) -> (ev: AccessAttemptEvent)
        requires
            old(self).wf(),
            old(self).log_counter < u64::MAX,
            old(self).pattern(caller, (now - now % WINDOW_SIZE) as u64) < u32::MAX,
        ensures
            final(self).wf(),
            ({
                let id = (old(self).log_counter + 1) as u64;
                let ws = (now - now % WINDOW_SIZE) as u64;
                &&& final(self).log_counter == id
                &&& final(self).logs@ == old(self).logs@.insert(id, AccessLogEntry {
                    entry_id: id,
                    caller,
                    operation,
                    outcome,
                    ledger_timestamp: now,
                    window_start: ws,
                })
                &&& final(self).pattern(caller, ws) == old(self).pattern(caller, ws) + 1
                &&& forall|c: u64, w: u64| !(c == caller && w == ws) ==> #[trigger] final(self).pattern(c, w) == old(self).pattern(c, w)
                &&& ev.entry_id == id && ev.caller == caller && ev.operation@ == operation@ && ev.timestamp == now
                &&& ev.success == (outcome == AccessOutcome::Success)
                &&& ev.error_code == match outcome { AccessOutcome::Success => 0u32, AccessOutcome::Failure { error_code } => error_code }
            }),
    {
        let window_start = now - (now % WINDOW_SIZE);
        let counter = self.log_counter + 1;
        let event_operation = copy_bytes(&operation);
        self.logs.insert(counter, AccessLogEntry {
            entry_id: counter,
            caller,
            operation,
            outcome,
            ledger_timestamp: now,
            window_start,
        });
        self.log_counter = counter;

        let mut windows = match self.temporal.remove(caller) {
            Some(w) => w,
            None => IdMap::new(),
        };
        let current_count = match windows.get(window_start) {
            Some(c) => *c,
            None => 0,
        };
        windows.insert(window_start, current_count + 1);
        self.temporal.insert(caller, windows);

        let (success, error_code) = match outcome {
            AccessOutcome::Success => (true, 0u32),
            AccessOutcome::Failure { error_code } => (false, error_code),
        };
        AccessAttemptEvent { entry_id: counter, caller, operation: event_operation, success, error_code, timestamp: now }
    }

    /// The entry with id `entry_id`, if any.
    pub fn get_log_entry(&self, entry_id: u64) -> (r: Option<&AccessLogEntry>)
        requires
            self.wf(),
        ensures
            match r {
                Some(e) => self.logs@.contains_key(entry_id) && *e == self.logs@[entry_id],
                None => !self.logs@.contains_key(entry_id),
            },
    {
        self.logs.get(entry_id)
    }

    /// The number of entries ever recorded.
    pub fn get_total_log_count(&self) -> (n: u64)
        ensures
            n == self.log_counter,
    {
        self.log_counter
    }

    /// Calls recorded for `caller` in the window starting at `window_start`.
    pub fn get_temporal_pattern(&self, caller: AccountId, window_start: u64) -> (n: u32)
        requires
            self.wf(),
        ensures
            n == self.pattern(caller, window_start),
    {
        match self.temporal.get(caller) {
            Some(w) => match w.get(window_start) {
                Some(c) => *c,
                None => 0,
            },
            None => 0,
        }
    }

    /// Whether `entry` passes every filter that `query` sets.
    pub fn matches_query(entry: &AccessLogEntry, query: &AuditQuery) -> (b: bool)
        ensures
            b == matches(*entry, *query),
    {
        match query.caller {
            Some(c) => {
                if entry.caller != c {
                    return false;
                }
            },
            None => {},
        }
        match &query.operation {
            Some(op) => {
                if !bytes_equal(&entry.operation, op) {
                    return false;
                }
            },
            None => {},
        }
        match query.outcome_filter {
            Some(o) => {
                let same = match (o, entry.outcome) {
                    (AccessOutcome::Success, AccessOutcome::Success) => true,
                    (AccessOutcome::Failure { error_code: a }, AccessOutcome::Failure { error_code: b }) => a == b,
                    _ => false,
                };
                if !same {
                    return false;
                }
            },
            None => {},
        }
        match query.from_timestamp {
            Some(from) => {
                if entry.ledger_timestamp < from {
                    return false;
                }
            },
            None => {},
        }
        match query.to_timestamp {
            Some(to) => {
                if entry.ledger_timestamp > to {
                    return false;
                }
            },
            None => {},
        }
        true
    }

    /// The newest entries matching `query`, at most `query.limit` of them,
    /// newest first.  Each returned entry is a copy of the stored one.
    pub fn query_logs(&self, query: &AuditQuery) -> (r: Vec<AccessLogEntry>)
        requires
            self.wf(),
        ensures
            r@.len() == query_ids(self.logs@, *query, self.log_counter).len(),
            forall|i: int| 0 <= i < r@.len() ==> {
                let id = #[trigger] query_ids(self.logs@, *query, self.log_counter)[i];
                let e = self.logs@[id];
                &&& r@[i].entry_id == e.entry_id
                &&& r@[i].caller == e.caller
                &&& r@[i].operation@ == e.operation@
                &&& r@[i].outcome == e.outcome
                &&& r@[i].ledger_timestamp == e.ledger_timestamp
                &&& r@[i].window_start == e.window_start
            },
    {
        let ghost target = query_ids(self.logs@, *query, self.log_counter);
        let mut results: Vec<AccessLogEntry> = Vec::new();
        if query.limit == 0 {
            return results;
        }
        let total = self.log_counter;
        if total == 0 {
            return results;
        }
        let mut id: u64 = total;
        let ghost mut taken: Seq<u64> = Seq::empty();
        loop
            invariant_except_break
                taken + scan(self.logs@, *query, id as int, (query.limit - taken.len()) as nat) == target,
            invariant
                self.wf(),
                query.limit > 0,
                id <= total,
                total == self.log_counter,
                total > 0,
                target == scan(self.logs@, *query, total as int, query.limit as nat),
                results@.len() == taken.len(),
                taken.len() <= query.limit,
                forall|i: int| 0 <= i < results@.len() ==> {
                    let e = self.logs@[#[trigger] taken[i]];
                    &&& results@[i].entry_id == e.entry_id
                    &&& results@[i].caller == e.caller
                    &&& results@[i].operation@ == e.operation@
                    &&& results@[i].outcome == e.outcome
                    &&& results@[i].ledger_timestamp == e.ledger_timestamp
                    &&& results@[i].window_start == e.window_start
                },
            ensures
                results@.len() == target.len(),
                taken == target,
                forall|i: int| 0 <= i < results@.len() ==> {
                    let e = self.logs@[#[trigger] taken[i]];
                    &&& results@[i].entry_id == e.entry_id
                    &&& results@[i].caller == e.caller
                    &&& results@[i].operation@ == e.operation@
                    &&& results@[i].outcome == e.outcome
                    &&& results@[i].ledger_timestamp == e.ledger_timestamp
                    &&& results@[i].window_start == e.window_start
                },
            decreases id, query.limit - results@.len(),
        {
            if results.len() >= query.limit as usize {
                proof {
                    assert(scan(self.logs@, *query, id as int, 0) =~= Seq::<u64>::empty());
                    assert(taken + Seq::<u64>::empty() =~= taken);
                }
                break;
            }
            let ghost rest = (query.limit - taken.len()) as nat;
            let matched = match self.logs.get(id) {
                Some(entry) => Self::matches_query(entry, query),
                None => false,
            };
            if matched {
                let entry = self.logs.get(id).unwrap();
                results.push(AccessLogEntry {
                    entry_id: entry.entry_id,
                    caller: entry.caller,
                    operation: copy_bytes(&entry.operation),
                    outcome: entry.outcome,
                    ledger_timestamp: entry.ledger_timestamp,
                    window_start: entry.window_start,
                });
                proof {
                    assert(scan(self.logs@, *query, id as int, rest)
                        == seq![id] + scan(self.logs@, *query, id - 1, (rest - 1) as nat));
                    assert(taken.push(id) + scan(self.logs@, *query, id - 1, (rest - 1) as nat)
                        =~= taken + (seq![id] + scan(self.logs@, *query, id - 1, (rest - 1) as nat)));
                    taken = taken.push(id);
                }
            } else {
                proof {
                    assert(scan(self.logs@, *query, id as int, rest) == scan(self.logs@, *query, id - 1, rest));
                }
            }
            proof {
                assert(taken + scan(self.logs@, *query, id - 1, (query.limit - taken.len()) as nat) == target);
            }
            if id == 0 {
                proof {
                    assert(scan(self.logs@, *query, -1, (query.limit - taken.len()) as nat) =~= Seq::<u64>::empty());
                    assert(taken + Seq::<u64>::empty() =~= taken);
                }
                break;
            }
            id = id - 1;
        }
        results
    }
}

} // verus!
