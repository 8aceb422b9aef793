//! Tests of the pending-ACK tracker and the session manager.

use arrow_client::msg::ArrowMessage;
use arrow_client::session::SessionManager;
use arrow_client::tracker::{ExpectedAck, PendingAckTracker, ACK_TIMEOUT};

#[test]
fn tracker_is_fifo() {
    let mut t = PendingAckTracker::new();
    assert!(t.is_empty());
    t.push(1, 100);
    t.push(2, 101);
    t.push(3, 102);
    assert_eq!(t.len(), 3);
    assert_eq!(t.front().unwrap().msg_id, 1);
    assert_eq!(t.pop_front().unwrap().msg_id, 1);
    assert_eq!(t.pop_front().unwrap().msg_id, 2);
    assert_eq!(t.pop_front().unwrap().msg_id, 3);
    assert!(t.pop_front().is_none());
}

#[test]
fn tracker_pop_front_if_match() {
    let mut t = PendingAckTracker::new();
    t.push(5, 100);
    t.push(6, 100);
    assert!(!t.pop_front_if_match(6)); // reordered: head is 5
    assert_eq!(t.len(), 2);
    assert!(t.pop_front_if_match(5));
    assert!(t.pop_front_if_match(6));
    assert!(!t.pop_front_if_match(7)); // empty
}

#[test]
fn tracker_head_expiry_is_deadline_based() {
    let mut t = PendingAckTracker::new();
    assert!(!t.head_expired(u64::MAX - ACK_TIMEOUT));
    t.push(1, 100); // deadline 120
    assert!(!t.head_expired(119));
    assert!(t.head_expired(120));
    assert!(t.head_expired(121));
}

#[test]
fn expected_ack_deadline() {
    let e = ExpectedAck::new(9, 1000);
    assert_eq!(e.msg_id, 9);
    assert_eq!(e.deadline, 1000 + ACK_TIMEOUT);
    assert!(!e.timeout(1019));
    assert!(e.timeout(1020));
}

#[test]
fn sessions_created_on_first_sight() {
    let mut sm = SessionManager::new();
    assert_eq!(sm.len(), 0);
    sm.send(ArrowMessage::new(5, vec![1]));
    sm.send(ArrowMessage::new(5, vec![2]));
    sm.send(ArrowMessage::new(6, vec![3]));
    assert_eq!(sm.len(), 2);
    assert!(sm.has_session(5));
    assert!(sm.has_session(6));
    assert!(!sm.has_session(7));
}

#[test]
fn sessions_close_drops_only_the_named_one() {
    let mut sm = SessionManager::new();
    sm.send(ArrowMessage::new(5, vec![]));
    sm.send(ArrowMessage::new(6, vec![]));
    sm.close(5, 0);
    assert_eq!(sm.len(), 1);
    assert!(!sm.has_session(5));
    assert!(sm.has_session(6));
    sm.close(9, 0); // unknown id: no change
    assert_eq!(sm.len(), 1);
}

#[test]
fn sessions_deliver_inbound_in_order() {
    let mut sm = SessionManager::new();
    sm.send(ArrowMessage::new(5, vec![1]));
    sm.send(ArrowMessage::new(6, vec![2]));
    let a = sm.pop_delivered().unwrap();
    let b = sm.pop_delivered().unwrap();
    assert_eq!((a.service, a.payload), (5, vec![1]));
    assert_eq!((b.service, b.payload), (6, vec![2]));
    assert!(sm.pop_delivered().is_none());
}

#[test]
fn sessions_poll_output_in_order() {
    let mut sm = SessionManager::new();
    assert!(sm.poll().is_none());
    sm.push_output(ArrowMessage::new(5, vec![1]));
    sm.push_output(ArrowMessage::new(5, vec![2]));
    let a = sm.poll().unwrap();
    let b = sm.poll().unwrap();
    assert_eq!(a.payload, vec![1]);
    assert_eq!(b.payload, vec![2]);
    assert!(sm.poll().is_none());
}
