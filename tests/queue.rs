use message_queue::selection::{is_blocking_pop, is_blocking_push, is_non_blocking_pop};
use message_queue::{MessageQueue, MessageResult, Policy};

#[test]
fn queue_non_blocking_insert_reports_full() {
    let q: MessageQueue<String> = MessageQueue::new(2);
    assert_eq!(q.capacity(), 2);
    assert_eq!(q.push("a".to_string(), Policy::NonBlocking), MessageResult::Success);
    assert_eq!(q.push("b".to_string(), Policy::NonBlocking), MessageResult::Success);
    assert_eq!(q.push("c".to_string(), Policy::NonBlocking), MessageResult::Full);
    assert_eq!(q.pop(Policy::NonBlocking), (Some("b".to_string()), MessageResult::Success));
}

#[test]
fn queue_pops_in_reverse_order() {
    let q: MessageQueue<u32> = MessageQueue::new(3);
    q.push(1, Policy::Blocking);
    q.push(2, Policy::Blocking);
    q.push(3, Policy::Blocking);
    assert_eq!(q.pop(Policy::Blocking), (Some(3), MessageResult::Success));
    assert_eq!(q.pop(Policy::Blocking), (Some(2), MessageResult::Success));
    assert_eq!(q.pop(Policy::Blocking), (Some(1), MessageResult::Success));
    assert_eq!(q.pop(Policy::NonBlocking), (None, MessageResult::Empty));
}

#[test]
fn queue_get_by_predicate() {
    let q: MessageQueue<String> = MessageQueue::new(3);
    q.push("1".to_string(), Policy::NonBlocking);
    q.push("2".to_string(), Policy::NonBlocking);
    q.push("3".to_string(), Policy::NonBlocking);
    let r = q.get(&|m: &String| m == "2");
    assert_eq!(r, (Some("2".to_string()), MessageResult::Success));
    let r = q.get(&|m: &String| m == "2");
    assert_eq!(r, (None, MessageResult::NotFound));
    assert_eq!(q.pop(Policy::NonBlocking), (Some("3".to_string()), MessageResult::Success));
    assert_eq!(q.pop(Policy::NonBlocking), (Some("1".to_string()), MessageResult::Success));
}

#[test]
fn queue_closed_answers_closed() {
    let q: MessageQueue<u32> = MessageQueue::new(2);
    q.push(1, Policy::NonBlocking);
    assert!(!q.is_closed());
    assert_eq!(q.close(), MessageResult::Success);
    assert!(q.is_closed());
    assert_eq!(q.push(2, Policy::Blocking), MessageResult::Closed);
    assert_eq!(q.push(2, Policy::NonBlocking), MessageResult::Closed);
    assert_eq!(q.pop(Policy::Blocking), (None, MessageResult::Closed));
    assert_eq!(q.pop(Policy::NonBlocking), (None, MessageResult::Closed));
    assert_eq!(q.get(&|_: &u32| true), (None, MessageResult::Closed));
    assert_eq!(q.close(), MessageResult::Success);
    assert!(q.is_closed());
}

#[test]
fn policy_selection_from_draws() {
    assert!(is_non_blocking_pop(0));
    assert!(is_non_blocking_pop(9));
    assert!(!is_non_blocking_pop(10));
    assert!(is_blocking_pop(10));
    assert!(!is_blocking_pop(7));
    assert!(is_blocking_push(0));
    assert!(is_blocking_push(65535));
}

#[test]
fn queue_len_follows_inserts_and_removes() {
    let q: MessageQueue<u32> = MessageQueue::new(4);
    assert_eq!(q.len(), 0);
    q.push(1, Policy::NonBlocking);
    q.push(2, Policy::NonBlocking);
    assert_eq!(q.len(), 2);
    q.pop(Policy::NonBlocking);
    assert_eq!(q.len(), 1);
    q.close();
    assert_eq!(q.len(), 1);
}
