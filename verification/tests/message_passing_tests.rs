use teachlink::errors::BridgeError;
use teachlink::message_passing::{MessagePassing, PacketStatus, DEFAULT_PACKET_TIMEOUT};

fn send(m: &mut MessagePassing, dest: u32, sender: &[u8], now: u64) -> Result<u64, BridgeError> {
    m.send_packet(1, dest, sender.to_vec(), vec![9; 20], vec![1, 2, 3], None, now)
}

#[test]
fn send_packet_validates_and_numbers_packets() {
    let mut m = MessagePassing::new();
    assert_eq!(m.send_packet(1, 2, vec![], vec![1], vec![1], None, 0), Err(BridgeError::InvalidPayload));
    assert_eq!(m.send_packet(1, 2, vec![1; 65], vec![1], vec![1], None, 0), Err(BridgeError::InvalidPayload));
    assert_eq!(m.send_packet(1, 2, vec![1], vec![], vec![1], None, 0), Err(BridgeError::InvalidPayload));
    assert_eq!(m.send_packet(1, 2, vec![1], vec![1], vec![], None, 0), Err(BridgeError::InvalidPayload));
    assert_eq!(m.get_packet_count(), 0);
    assert_eq!(send(&mut m, 2, &[7; 64], 100), Ok(1));
    assert_eq!(m.send_packet(1, 2, vec![7], vec![8], vec![0], Some(50), 100), Ok(2));
    let p1 = m.get_packet(1).unwrap();
    assert_eq!(p1.timeout, 100 + DEFAULT_PACKET_TIMEOUT);
    assert_eq!(p1.nonce, 1);
    assert_eq!(p1.status, PacketStatus::Pending);
    assert_eq!(m.get_packet(2).unwrap().timeout, 150);
    assert_eq!(m.get_packet_count(), 2);
}

#[test]
fn deliver_packet_records_receipt_once() {
    let mut m = MessagePassing::new();
    let id = send(&mut m, 2, &[1], 0).unwrap();
    let ev = m.deliver_packet(id, 77, vec![5], 10).unwrap();
    assert_eq!((ev.packet_id, ev.delivered_at, ev.gas_used), (id, 10, 77));
    assert!(m.verify_delivery(id));
    let receipt = m.get_receipt(id).unwrap();
    assert_eq!(receipt.gas_used, 77);
    assert_eq!(receipt.result, vec![5]);
    assert_eq!(m.deliver_packet(id, 1, vec![], 11).map(|_| ()), Err(BridgeError::SwapAlreadyCompleted));
    assert_eq!(m.deliver_packet(99, 1, vec![], 11).map(|_| ()), Err(BridgeError::PacketNotFound));
    assert!(!m.verify_delivery(99));
}

#[test]
fn late_delivery_times_the_packet_out() {
    let mut m = MessagePassing::new();
    let id = m.send_packet(1, 2, vec![1], vec![2], vec![3], Some(10), 0).unwrap();
    assert_eq!(m.deliver_packet(id, 1, vec![], 11).map(|_| ()), Err(BridgeError::PacketTimeout));
    assert_eq!(m.get_packet(id).unwrap().status, PacketStatus::TimedOut);
    assert!(m.get_receipt(id).is_none());
    // Retry gives it a fresh deadline.
    m.retry_packet(id, 20).unwrap();
    let p = m.get_packet(id).unwrap();
    assert_eq!(p.status, PacketStatus::Retrying);
    assert_eq!(p.timeout, 20 + DEFAULT_PACKET_TIMEOUT);
    assert!(m.deliver_packet(id, 1, vec![], 30).is_ok());
    assert_eq!(m.retry_packet(id, 40), Err(BridgeError::InvalidInput));
}

#[test]
fn failed_packets_can_be_retried_but_not_delivered() {
    let mut m = MessagePassing::new();
    let id = send(&mut m, 2, &[1], 0).unwrap();
    assert_eq!(m.retry_packet(id, 1), Err(BridgeError::InvalidInput));
    m.fail_packet(id).unwrap();
    assert_eq!(m.fail_packet(42), Err(BridgeError::PacketNotFound));
    assert_eq!(m.deliver_packet(id, 1, vec![], 2).map(|_| ()), Err(BridgeError::InvalidInput));
    assert_eq!(m.get_packets_by_status(PacketStatus::Failed), vec![id]);
    m.retry_packet(id, 3).unwrap();
    assert_eq!(m.retry_packet(77, 3), Err(BridgeError::PacketNotFound));
    assert_eq!(m.get_packets_by_status(PacketStatus::Retrying), vec![id]);
}

#[test]
fn check_timeouts_marks_only_overdue_packets_in_flight() {
    let mut m = MessagePassing::new();
    let a = m.send_packet(1, 2, vec![1], vec![2], vec![3], Some(10), 0).unwrap();
    let b = m.send_packet(1, 3, vec![1], vec![2], vec![3], Some(100), 0).unwrap();
    let c = m.send_packet(1, 2, vec![1], vec![2], vec![3], Some(5), 0).unwrap();
    m.deliver_packet(c, 1, vec![], 1).unwrap();
    assert_eq!(m.check_timeouts(50), Ok(vec![a]));
    assert_eq!(m.get_packet(a).unwrap().status, PacketStatus::TimedOut);
    assert_eq!(m.get_packet(b).unwrap().status, PacketStatus::Pending);
    assert_eq!(m.get_packet(c).unwrap().status, PacketStatus::Delivered);
    // A second pass at the same time finds nothing more.
    assert_eq!(m.check_timeouts(50), Ok(vec![]));
    assert_eq!(m.get_pending_packets_for_chain(3), vec![b]);
    assert_eq!(m.get_pending_packets_for_chain(2), Vec::<u64>::new());
}

#[test]
fn packets_are_found_by_sender_and_recipient() {
    let mut m = MessagePassing::new();
    let a = m.send_packet(1, 2, vec![1, 1], vec![2], vec![3], None, 0).unwrap();
    let b = m.send_packet(1, 2, vec![4], vec![2], vec![3], None, 0).unwrap();
    let c = m.send_packet(1, 2, vec![1, 1], vec![5], vec![3], None, 0).unwrap();
    assert_eq!(m.get_packets_by_sender(&vec![1, 1]), vec![a, c]);
    assert_eq!(m.get_packets_by_recipient(&vec![2]), vec![a, b]);
    assert_eq!(m.get_packets_by_sender(&vec![1]), Vec::<u64>::new());
}
