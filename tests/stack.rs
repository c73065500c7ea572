use message_queue::{Awaited, BoundedStack, MessageResult};

#[test]
fn fills_to_capacity_then_full() {
    let mut s: BoundedStack<u32> = BoundedStack::new(3);
    assert_eq!(s.try_insert(1), MessageResult::Success);
    assert_eq!(s.try_insert(2), MessageResult::Success);
    assert_eq!(s.try_insert(3), MessageResult::Success);
    assert_eq!(s.try_insert(4), MessageResult::Full);
    assert_eq!(s.len(), 3);
    assert_eq!(s.capacity(), 3);
}

#[test]
fn capacity_one_is_full_after_one_insert() {
    let mut s: BoundedStack<u32> = BoundedStack::new(1);
    assert!(!s.must_wait(Awaited::Space));
    assert_eq!(s.try_insert(7), MessageResult::Success);
    assert!(s.must_wait(Awaited::Space));
    assert_eq!(s.try_insert(8), MessageResult::Full);
    assert_eq!(s.len(), 1);
}

#[test]
fn removes_in_reverse_insertion_order() {
    let mut s: BoundedStack<u32> = BoundedStack::new(5);
    s.try_insert(1);
    s.try_insert(2);
    s.try_insert(3);
    assert_eq!(s.try_remove(), (Some(3), MessageResult::Success));
    assert_eq!(s.try_remove(), (Some(2), MessageResult::Success));
    assert_eq!(s.try_remove(), (Some(1), MessageResult::Success));
    assert_eq!(s.try_remove(), (None, MessageResult::Empty));
}

#[test]
fn remove_frees_a_slot_for_insert() {
    let mut s: BoundedStack<u32> = BoundedStack::new(2);
    s.try_insert(1);
    s.try_insert(2);
    assert!(s.must_wait(Awaited::Space));
    assert_eq!(s.try_remove(), (Some(2), MessageResult::Success));
    assert!(!s.must_wait(Awaited::Space));
    assert_eq!(s.try_insert(9), MessageResult::Success);
    assert_eq!(s.try_remove(), (Some(9), MessageResult::Success));
    assert_eq!(s.try_remove(), (Some(1), MessageResult::Success));
}

#[test]
fn empty_asks_remove_to_wait() {
    let mut s: BoundedStack<u32> = BoundedStack::new(2);
    assert!(s.must_wait(Awaited::Item));
    s.try_insert(5);
    assert!(!s.must_wait(Awaited::Item));
}

#[test]
fn remove_matching_without_match_is_not_found() {
    let mut s: BoundedStack<u32> = BoundedStack::new(4);
    s.try_insert(1);
    s.try_insert(3);
    s.try_insert(5);
    let r = s.remove_matching(&|m: &u32| *m % 2 == 0);
    assert_eq!(r, (None, MessageResult::NotFound));
    assert_eq!(s.len(), 3);
    assert_eq!(s.try_remove(), (Some(5), MessageResult::Success));
    assert_eq!(s.try_remove(), (Some(3), MessageResult::Success));
    assert_eq!(s.try_remove(), (Some(1), MessageResult::Success));
}

#[test]
fn remove_matching_takes_first_match_and_moves_top_into_place() {
    let mut s: BoundedStack<u32> = BoundedStack::new(5);
    for m in [10, 20, 30, 40] {
        s.try_insert(m);
    }
    let r = s.remove_matching(&|m: &u32| *m >= 20);
    assert_eq!(r, (Some(20), MessageResult::Success));
    assert_eq!(s.len(), 3);
    assert_eq!(s.try_remove(), (Some(30), MessageResult::Success));
    assert_eq!(s.try_remove(), (Some(40), MessageResult::Success));
    assert_eq!(s.try_remove(), (Some(10), MessageResult::Success));
}

#[test]
fn remove_matching_on_empty_is_not_found() {
    let mut s: BoundedStack<u32> = BoundedStack::new(2);
    assert_eq!(s.remove_matching(&|_: &u32| true), (None, MessageResult::NotFound));
}

#[test]
fn closed_stack_refuses_everything_and_keeps_elements() {
    let mut s: BoundedStack<u32> = BoundedStack::new(3);
    s.try_insert(1);
    s.close();
    assert!(s.is_closed());
    assert_eq!(s.try_insert(2), MessageResult::Closed);
    assert_eq!(s.try_remove(), (None, MessageResult::Closed));
    assert_eq!(s.remove_matching(&|_: &u32| true), (None, MessageResult::Closed));
    assert_eq!(s.len(), 1);
    assert!(!s.must_wait(Awaited::Space));
    assert!(!s.must_wait(Awaited::Item));
    s.close();
    assert!(s.is_closed());
    assert_eq!(s.len(), 1);
}
