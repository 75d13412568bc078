//! Cross-chain packets: sending, delivery with receipts, failure, retry and
//! timeouts.
//!
//! A packet is `Pending` when sent and `Retrying` after a retry; either may
//! be delivered before its deadline, marked failed, or time out.  Failed and
//! timed-out packets may be retried with a fresh deadline; delivered packets
//! are final.
use vstd::prelude::*;
use crate::errors::BridgeError;
use crate::id_map::{IdMap, keys_where, lemma_keys_where_seq, lemma_keys_where_step};
use crate::types::{bytes_equal, copy_bytes};

verus! {

/// Deadline a packet gets when the sender names none (24 hours).
pub const DEFAULT_PACKET_TIMEOUT: u64 = 86_400;
/// Maximum retry attempts.
pub const MAX_RETRY_ATTEMPTS: u32 = 5;
/// Retry delay in seconds.
pub const RETRY_DELAY_BASE: u64 = 300;
/// Longest sender or recipient address, in bytes.
pub const MAX_ADDRESS_LEN: usize = 64;

/// Where a packet stands.
#[derive(Copy, Clone, Debug, PartialEq, Eq, Structural)]
pub enum PacketStatus {
    Pending,
    Delivered,
    Failed,
    TimedOut,
    Retrying,
}

/// A packet between chains.
#[derive(Clone, Debug)]
pub struct CrossChainPacket {
    pub packet_id: u64,
    pub source_chain: u32,
    pub destination_chain: u32,
    pub sender: Vec<u8>,
    pub recipient: Vec<u8>,
    pub payload: Vec<u8>,
    pub nonce: u64,
    /// Deadline (ledger seconds).
    pub timeout: u64,
    pub status: PacketStatus,
}

/// The record of a delivery.
#[derive(Clone, Debug)]
pub struct MessageReceipt {
    pub packet_id: u64,
    pub delivered_at: u64,
    pub gas_used: u64,
    pub result: Vec<u8>,
}

/// A packet was delivered.
#[derive(Copy, Clone, Debug, PartialEq, Eq, Structural)]
pub struct PacketDeliveredEvent {
    pub packet_id: u64,
    pub delivered_at: u64,
    pub gas_used: u64,
}

/// Whether a packet still awaits delivery.
pub open spec fn in_flight(s: PacketStatus) -> bool {
    s == PacketStatus::Pending || s == PacketStatus::Retrying
}

/// Whether `p` has missed its deadline at `now` while in flight.
pub open spec fn times_out(p: CrossChainPacket, now: u64) -> bool {
    in_flight(p.status) && now > p.timeout
}

/// `p` marked timed out.
pub open spec fn timed_out(p: CrossChainPacket) -> CrossChainPacket {
    CrossChainPacket { status: PacketStatus::TimedOut, ..p }
}

/// The entries after marking those that time out at `now`.
pub open spec fn after_timeouts(s: Seq<(u64, CrossChainPacket)>, now: u64) -> Seq<(u64, CrossChainPacket)> {
    s.map_values(|e: (u64, CrossChainPacket)| if times_out(e.1, now) { (e.0, timed_out(e.1)) } else { e })
}

/// Why a delivery of a packet with `status` and deadline `timeout` at `now`
/// is refused, if it is.
pub open spec fn delivery_refusal(status: PacketStatus, timeout: u64, now: u64) -> Option<BridgeError> {
    match status {
        PacketStatus::Delivered => Some(BridgeError::SwapAlreadyCompleted),
        PacketStatus::Failed => Some(BridgeError::InvalidInput),
        PacketStatus::TimedOut => Some(BridgeError::PacketTimeout),
        _ => if now > timeout { Some(BridgeError::PacketTimeout) } else { None },
    }
}

/// Whether an address is acceptable (1 to 64 bytes).
pub open spec fn valid_address(a: Seq<u8>) -> bool {
    0 < a.len() <= MAX_ADDRESS_LEN
}

/// The packets and receipts.
#[derive(Clone)]
pub struct MessagePassing {
    pub packets: IdMap<CrossChainPacket>,
    pub receipts: IdMap<MessageReceipt>,
    /// Number of packets ever sent; the id of the last one.
    pub packet_counter: u64,
}

impl MessagePassing {
    /// Tables are well formed.
    pub open spec fn wf(&self) -> bool {
        self.packets.wf() && self.receipts.wf()
    }

    /// Nothing sent yet.
    pub fn new() -> (m: Self)
        ensures
            m.wf(),
            m.packets@ == Map::<u64, CrossChainPacket>::empty(),
            m.receipts@ == Map::<u64, MessageReceipt>::empty(),
            m.packet_counter == 0,
    {
        MessagePassing { packets: IdMap::new(), receipts: IdMap::new(), packet_counter: 0 }
    }

    /// Send `payload` from `sender` on `source_chain` to `recipient` on
    /// `destination_chain` at `now`; it must arrive within `timeout` seconds
    /// (24 hours by default).  The packet gets the next id, which is also its
    /// nonce, and is `Pending`.
    pub fn send_packet(
        &mut self,
        source_chain: u32,
        destination_chain: u32,
        sender: Vec<u8>,
        recipient: Vec<u8>,
        payload: Vec<u8>,
        timeout: Option<u64>,
        now: u64,
    ) -> (r: Result<u64, BridgeError>)
        requires
            old(self).wf(),
            valid_address(sender@) && valid_address(recipient@) && payload@.len() > 0 ==> {
                &&& old(self).packet_counter < u64::MAX
                &&& now + match timeout { Some(t) => t, None => DEFAULT_PACKET_TIMEOUT } <= u64::MAX
            },
        ensures
            final(self).wf(),
            !(valid_address(sender@) && valid_address(recipient@) && payload@.len() > 0) ==>
                r == Err::<u64, BridgeError>(BridgeError::InvalidPayload) && *final(self) == *old(self),
            valid_address(sender@) && valid_address(recipient@) && payload@.len() > 0 ==> {
                let id = (old(self).packet_counter + 1) as u64;
                let p = final(self).packets@[id];
                &&& r == Ok::<u64, BridgeError>(id)
                &&& final(self).packet_counter == id
                &&& final(self).packets@.dom() == old(self).packets@.dom().insert(id)
                &&& forall|k: u64| k != id && #[trigger] old(self).packets@.contains_key(k) ==> final(self).packets@[k] == old(self).packets@[k]
                &&& final(self).receipts == old(self).receipts
                &&& p.packet_id == id && p.nonce == id
                &&& p.source_chain == source_chain && p.destination_chain == destination_chain
                &&& p.sender@ == sender@ && p.recipient@ == recipient@ && p.payload@ == payload@
                &&& p.timeout == now + match timeout { Some(t) => t, None => DEFAULT_PACKET_TIMEOUT }
                &&& p.status == PacketStatus::Pending
            },
    {
        if sender.len() == 0 || sender.len() > MAX_ADDRESS_LEN {
            return Err(BridgeError::InvalidPayload);
        }
        if recipient.len() == 0 || recipient.len() > MAX_ADDRESS_LEN {
            return Err(BridgeError::InvalidPayload);
        }
        if payload.len() == 0 {
            return Err(BridgeError::InvalidPayload);
        }
        let id = self.packet_counter + 1;
        let packet_timeout = match timeout {
            Some(t) => t,
            None => DEFAULT_PACKET_TIMEOUT,
        };
        let packet = CrossChainPacket {
            packet_id: id,
            source_chain,
            destination_chain,
            sender,
            recipient,
            payload,
            nonce: id,
            timeout: now + packet_timeout,
            status: PacketStatus::Pending,
        };
        self.packets.insert(id, packet);
        self.packet_counter = id;
        Ok(id)
    }

    /// Record delivery of packet `packet_id` at `now`, with the gas it used
    /// and its result.  Delivered, failed and timed-out packets are refused;
    /// a packet in flight past its deadline is marked timed out (and the
    /// delivery refused).
    pub fn deliver_packet(&mut self, packet_id: u64, gas_used: u64, result: Vec<u8>, now: u64) -> (r: Result<PacketDeliveredEvent, BridgeError>)
        requires
            old(self).wf(),
        ensures
            final(self).wf(),
            final(self).packet_counter == old(self).packet_counter,
            !old(self).packets@.contains_key(packet_id) ==>
                r == Err::<PacketDeliveredEvent, BridgeError>(BridgeError::PacketNotFound) && *final(self) == *old(self),
            old(self).packets@.contains_key(packet_id) ==> match delivery_refusal(old(self).packets@[packet_id].status, old(self).packets@[packet_id].timeout, now) {
                Some(e) => r == Err::<PacketDeliveredEvent, BridgeError>(e),
                None => r is Ok && final(self).packets@[packet_id].status == PacketStatus::Delivered,
            },
            old(self).packets@.contains_key(packet_id) ==> {
                let p = old(self).packets@[packet_id];
                match p.status {
                    PacketStatus::Delivered => r == Err::<PacketDeliveredEvent, BridgeError>(BridgeError::SwapAlreadyCompleted) && *final(self) == *old(self),
                    PacketStatus::Failed => r == Err::<PacketDeliveredEvent, BridgeError>(BridgeError::InvalidInput) && *final(self) == *old(self),
                    PacketStatus::TimedOut => r == Err::<PacketDeliveredEvent, BridgeError>(BridgeError::PacketTimeout) && *final(self) == *old(self),
                    _ => if now > p.timeout {
                        &&& r == Err::<PacketDeliveredEvent, BridgeError>(BridgeError::PacketTimeout)
                        &&& final(self).packets@ == old(self).packets@.insert(packet_id, timed_out(p))
                        &&& final(self).receipts == old(self).receipts
                    } else {
                        &&& r == Ok::<PacketDeliveredEvent, BridgeError>(PacketDeliveredEvent { packet_id, delivered_at: now, gas_used })
                        &&& final(self).packets@ == old(self).packets@.insert(packet_id, CrossChainPacket { status: PacketStatus::Delivered, ..p })
                        &&& final(self).receipts@ == old(self).receipts@.insert(packet_id, MessageReceipt { packet_id, delivered_at: now, gas_used, result })
                    },
                }
            },
    {
        let (status, deadline) = match self.packets.get(packet_id) {
            Some(p) => (p.status, p.timeout),
            None => { return Err(BridgeError::PacketNotFound); },
        };
        match status {
            PacketStatus::Delivered => { return Err(BridgeError::SwapAlreadyCompleted); },
            PacketStatus::Failed => { return Err(BridgeError::InvalidInput); },
            PacketStatus::TimedOut => { return Err(BridgeError::PacketTimeout); },
            _ => {},
        }
        let mut packet = self.packets.remove(packet_id).unwrap();
        if now > deadline {
            packet.status = PacketStatus::TimedOut;
            self.packets.insert(packet_id, packet);
            proof { assert(self.packets@ =~= old(self).packets@.insert(packet_id, timed_out(old(self).packets@[packet_id]))); }
            return Err(BridgeError::PacketTimeout);
        }
        packet.status = PacketStatus::Delivered;
        self.packets.insert(packet_id, packet);
        self.receipts.insert(packet_id, MessageReceipt { packet_id, delivered_at: now, gas_used, result });
        proof { assert(self.packets@ =~= old(self).packets@.insert(packet_id, CrossChainPacket { status: PacketStatus::Delivered, ..old(self).packets@[packet_id] })); }
        Ok(PacketDeliveredEvent { packet_id, delivered_at: now, gas_used })
    }

    /// Mark packet `packet_id` failed, whatever its state.
    pub fn fail_packet(&mut self, packet_id: u64) -> (r: Result<(), BridgeError>)
        requires
            old(self).wf(),
        ensures
            final(self).wf(),
            final(self).packet_counter == old(self).packet_counter,
            final(self).receipts == old(self).receipts,
            !old(self).packets@.contains_key(packet_id) ==>
                r == Err::<(), BridgeError>(BridgeError::PacketNotFound) && *final(self) == *old(self),
            old(self).packets@.contains_key(packet_id) ==> r is Ok
                && final(self).packets@ == old(self).packets@.insert(packet_id,
                    CrossChainPacket { status: PacketStatus::Failed, ..old(self).packets@[packet_id] }),
    {
        if !self.packets.contains_key(packet_id) {
            return Err(BridgeError::PacketNotFound);
        }
        match self.packets.remove(packet_id) {
            Some(mut packet) => {
                packet.status = PacketStatus::Failed;
                self.packets.insert(packet_id, packet);
                proof {
                    assert(self.packets@ =~= old(self).packets@.insert(packet_id,
                        CrossChainPacket { status: PacketStatus::Failed, ..old(self).packets@[packet_id] }));
                }
                Ok(())
            },
            None => Err(BridgeError::PacketNotFound),
        }
    }

    /// Retry a failed or timed-out packet at `now`: it is `Retrying` again
    /// with a 24-hour deadline.  Other packets are refused.
    pub fn retry_packet(&mut self, packet_id: u64, now: u64) -> (r: Result<(), BridgeError>)
        requires
            old(self).wf(),
            now + DEFAULT_PACKET_TIMEOUT <= u64::MAX,
        ensures
            final(self).wf(),
            final(self).packet_counter == old(self).packet_counter,
            final(self).receipts == old(self).receipts,
            !old(self).packets@.contains_key(packet_id) ==>
                r == Err::<(), BridgeError>(BridgeError::PacketNotFound) && *final(self) == *old(self),
            old(self).packets@.contains_key(packet_id) ==> {
                let p = old(self).packets@[packet_id];
                if p.status == PacketStatus::Failed || p.status == PacketStatus::TimedOut {
                    r is Ok && final(self).packets@ == old(self).packets@.insert(packet_id,
                        CrossChainPacket { status: PacketStatus::Retrying, timeout: (now + DEFAULT_PACKET_TIMEOUT) as u64, ..p })
                } else {
                    r == Err::<(), BridgeError>(BridgeError::InvalidInput) && *final(self) == *old(self)
                }
            },
    {
        let status = match self.packets.get(packet_id) {
            Some(p) => p.status,
            None => { return Err(BridgeError::PacketNotFound); },
        };
        match status {
            PacketStatus::Failed | PacketStatus::TimedOut => {
                let mut packet = self.packets.remove(packet_id).unwrap();
                packet.status = PacketStatus::Retrying;
                packet.timeout = now + DEFAULT_PACKET_TIMEOUT;
                self.packets.insert(packet_id, packet);
                proof {
                    assert(self.packets@ =~= old(self).packets@.insert(packet_id,
                        CrossChainPacket { status: PacketStatus::Retrying, timeout: (now + DEFAULT_PACKET_TIMEOUT) as u64, ..old(self).packets@[packet_id] }));
                }
                Ok(())
            },
            _ => Err(BridgeError::InvalidInput),
        }
    }

    /// Mark every packet in flight past its deadline at `now` timed out;
    /// returns their ids in increasing order.
    pub fn check_timeouts(&mut self, now: u64) -> (r: Result<Vec<u64>, BridgeError>)
        requires
            old(self).wf(),
        ensures
            final(self).wf(),
            final(self).packet_counter == old(self).packet_counter,
            final(self).receipts == old(self).receipts,
            final(self).packets.entries() == after_timeouts(old(self).packets.entries(), now),
            r matches Ok(ids) && ids@ == keys_where(old(self).packets.entries(), |p: CrossChainPacket| times_out(p, now)),
    {
        let ghost s0 = self.packets.entries();
        let ghost p = |pk: CrossChainPacket| times_out(pk, now);
        let mut ids: Vec<u64> = Vec::new();
        let mut i: usize = 0;
        let n = self.packets.len();
        while i < n
            invariant
                self.packets.wf(),
                n == s0.len(),
                i <= n,
                p == |pk: CrossChainPacket| times_out(pk, now),
                self.packets.entries().len() == n,
                forall|j: int| 0 <= j < i ==> #[trigger] self.packets.entries()[j] == after_timeouts(s0, now)[j],
                forall|j: int| i <= j < n ==> #[trigger] self.packets.entries()[j] == s0[j],
                ids@ == keys_where(s0.take(i as int), p),
                self.receipts == old(self).receipts,
                self.packet_counter == old(self).packet_counter,
            decreases n - i,
        {
            proof { lemma_keys_where_step(s0, i as int, p); }
            let (status, deadline) = {
                let pk = self.packets.value_at(i);
                (pk.status, pk.timeout)
            };
            if (status == PacketStatus::Pending || status == PacketStatus::Retrying) && now > deadline {
                let placeholder = CrossChainPacket {
                    packet_id: 0,
                    source_chain: 0,
                    destination_chain: 0,
                    sender: Vec::new(),
                    recipient: Vec::new(),
                    payload: Vec::new(),
                    nonce: 0,
                    timeout: 0,
                    status: PacketStatus::TimedOut,
                };
                let mut pk = self.packets.replace_value_at(i, placeholder);
                pk.status = PacketStatus::TimedOut;
                let _ = self.packets.replace_value_at(i, pk);
                ids.push(self.packets.key_at(i));
            }
            i = i + 1;
        }
        proof {
            assert(s0.take(n as int) =~= s0);
            assert(self.packets.entries() =~= after_timeouts(s0, now));
        }
        Ok(ids)
    }

    /// The packet `packet_id`, if any.
    pub fn get_packet(&self, packet_id: u64) -> (r: Option<&CrossChainPacket>)
        requires
            self.wf(),
        ensures
            match r {
                Some(p) => self.packets@.contains_key(packet_id) && *p == self.packets@[packet_id],
                None => !self.packets@.contains_key(packet_id),
            },
    {
        self.packets.get(packet_id)
    }

    /// The delivery receipt of packet `packet_id`, if any.
    pub fn get_receipt(&self, packet_id: u64) -> (r: Option<&MessageReceipt>)
        requires
            self.wf(),
        ensures
            match r {
                Some(m) => self.receipts@.contains_key(packet_id) && *m == self.receipts@[packet_id],
                None => !self.receipts@.contains_key(packet_id),
            },
    {
        self.receipts.get(packet_id)
    }

    /// Ids of the packets with `status`, in increasing order.
    pub fn get_packets_by_status(&self, status: PacketStatus) -> (ids: Vec<u64>)
        ensures
            ids@ == keys_where(self.packets.entries(), |p: CrossChainPacket| p.status == status),
    {
        let ghost p = |pk: CrossChainPacket| pk.status == status;
        let mut result: Vec<u64> = Vec::new();
        let mut i: usize = 0;
        while i < self.packets.len()
            invariant
                i <= self.packets.entries().len(),
                p == |pk: CrossChainPacket| pk.status == status,
                result@ == keys_where(self.packets.entries().take(i as int), p),
            decreases self.packets.entries().len() - i,
        {
            proof { lemma_keys_where_step(self.packets.entries(), i as int, p); }
            if self.packets.value_at(i).status == status {
                result.push(self.packets.key_at(i));
            }
            i = i + 1;
        }
        proof { assert(self.packets.entries().take(i as int) =~= self.packets.entries()); }
        result
    }

    /// Ids of the packets in flight to `destination_chain`, in increasing order.
    pub fn get_pending_packets_for_chain(&self, destination_chain: u32) -> (ids: Vec<u64>)
        ensures
            ids@ == keys_where(self.packets.entries(),
                |p: CrossChainPacket| p.destination_chain == destination_chain && in_flight(p.status)),
    {
        let ghost p = |pk: CrossChainPacket| pk.destination_chain == destination_chain && in_flight(pk.status);
        let mut result: Vec<u64> = Vec::new();
        let mut i: usize = 0;
        while i < self.packets.len()
            invariant
                i <= self.packets.entries().len(),
                p == |pk: CrossChainPacket| pk.destination_chain == destination_chain && in_flight(pk.status),
                result@ == keys_where(self.packets.entries().take(i as int), p),
            decreases self.packets.entries().len() - i,
        {
            proof { lemma_keys_where_step(self.packets.entries(), i as int, p); }
            let pk = self.packets.value_at(i);
            if pk.destination_chain == destination_chain
                && (pk.status == PacketStatus::Pending || pk.status == PacketStatus::Retrying) {
                result.push(self.packets.key_at(i));
            }
            i = i + 1;
        }
        proof { assert(self.packets.entries().take(i as int) =~= self.packets.entries()); }
        result
    }

    /// Whether packet `packet_id` was delivered.
    pub fn verify_delivery(&self, packet_id: u64) -> (b: bool)
        requires
            self.wf(),
        ensures
            b == (self.packets@.contains_key(packet_id) && self.packets@[packet_id].status == PacketStatus::Delivered),
    {
        match self.packets.get(packet_id) {
            Some(p) => p.status == PacketStatus::Delivered,
            None => false,
        }
    }

    /// The number of packets ever sent.
    pub fn get_packet_count(&self) -> (n: u64)
        ensures
            n == self.packet_counter,
    {
        self.packet_counter
    }

    /// Ids of the packets sent by `sender`, in increasing order.
    pub fn get_packets_by_sender(&self, sender: &Vec<u8>) -> (ids: Vec<u64>)
        ensures
            ids@ == keys_where(self.packets.entries(), |p: CrossChainPacket| p.sender@ == sender@),
    {
        let ghost p = |pk: CrossChainPacket| pk.sender@ == sender@;
        let mut result: Vec<u64> = Vec::new();
        let mut i: usize = 0;
        while i < self.packets.len()
            invariant
                i <= self.packets.entries().len(),
                p == |pk: CrossChainPacket| pk.sender@ == sender@,
                result@ == keys_where(self.packets.entries().take(i as int), p),
            decreases self.packets.entries().len() - i,
        {
            proof { lemma_keys_where_step(self.packets.entries(), i as int, p); }
            if bytes_equal(&self.packets.value_at(i).sender, sender) {
                result.push(self.packets.key_at(i));
            }
            i = i + 1;
        }
        proof { assert(self.packets.entries().take(i as int) =~= self.packets.entries()); }
        result
    }

    /// Ids of the packets addressed to `recipient`, in increasing order.
    pub fn get_packets_by_recipient(&self, recipient: &Vec<u8>) -> (ids: Vec<u64>)
        ensures
            ids@ == keys_where(self.packets.entries(), |p: CrossChainPacket| p.recipient@ == recipient@),
    {
        let ghost p = |pk: CrossChainPacket| pk.recipient@ == recipient@;
        let mut result: Vec<u64> = Vec::new();
        let mut i: usize = 0;
        while i < self.packets.len()
            invariant
                i <= self.packets.entries().len(),
                p == |pk: CrossChainPacket| pk.recipient@ == recipient@,
                result@ == keys_where(self.packets.entries().take(i as int), p),
            decreases self.packets.entries().len() - i,
        {
            proof { lemma_keys_where_step(self.packets.entries(), i as int, p); }
            if bytes_equal(&self.packets.value_at(i).recipient, recipient) {
                result.push(self.packets.key_at(i));
            }
            i = i + 1;
        }
        proof { assert(self.packets.entries().take(i as int) =~= self.packets.entries()); }
        result
    }
}

/// A delivered packet is final: every later delivery of it is refused, and
/// it cannot be retried.
pub proof fn law_delivered_packet_is_final(p: CrossChainPacket, now: u64)
    requires
        p.status == PacketStatus::Delivered,
    ensures
        delivery_refusal(p.status, p.timeout, now) == Some(BridgeError::SwapAlreadyCompleted),
        !(p.status == PacketStatus::Failed || p.status == PacketStatus::TimedOut),
        !times_out(p, now),
{
}

/// Marking timeouts twice at the same moment changes nothing the second
/// time: no packet times out again.
pub proof fn law_timeouts_are_idempotent(s: Seq<(u64, CrossChainPacket)>, now: u64)
    ensures
        after_timeouts(after_timeouts(s, now), now) == after_timeouts(s, now),
        keys_where(after_timeouts(s, now), |p: CrossChainPacket| times_out(p, now)) == Seq::<u64>::empty(),
    decreases s.len(),
{
    let t = after_timeouts(s, now);
    assert(after_timeouts(t, now) =~= t);
    if s.len() > 0 {
        law_timeouts_are_idempotent(s.drop_last(), now);
        assert(after_timeouts(s.drop_last(), now) =~= t.drop_last());
    }
}

/// Checking timeouts at `now` marks exactly the packets that are pending or
/// being retried and whose deadline is before `now`: such a packet becomes
/// `TimedOut` (nothing else about it changes) and its id is reported; every
/// other packet is left as it was.
pub proof fn law_overdue_packets_time_out(s: Seq<(u64, CrossChainPacket)>, now: u64, i: int)
    requires
        0 <= i < s.len(),
    ensures
        ({
            let p = s[i].1;
            let overdue = (p.status == PacketStatus::Pending || p.status == PacketStatus::Retrying) && now > p.timeout;
            &&& after_timeouts(s, now)[i].0 == s[i].0
            &&& overdue ==> after_timeouts(s, now)[i].1 == (CrossChainPacket { status: PacketStatus::TimedOut, ..p })
            &&& overdue ==> keys_where(s, |p: CrossChainPacket| times_out(p, now)).contains(s[i].0)
            &&& !overdue ==> after_timeouts(s, now)[i] == s[i]
        }),
{
    lemma_keys_where_seq(s, |p: CrossChainPacket| times_out(p, now));
    let pk = s[i].1;
    if (pk.status == PacketStatus::Pending || pk.status == PacketStatus::Retrying) && now > pk.timeout {
        assert(times_out(pk, now));
        assert(s[i].0 == s[i].0 && (|p: CrossChainPacket| times_out(p, now))(s[i].1));
    }
}

} // verus!
