use vstd::prelude::*;

use crate::outcome::MessageResult;
use crate::stack::{close_model, empty_model, insert_model, remove_matching_model, remove_model, StackModel};

verus! {

/// Non-blocking inserts of `msgs`, one after another, starting from `s`:
/// the state reached and the outcome of each insert.
pub open spec fn insert_seq<T>(s: StackModel<T>, msgs: Seq<T>) -> (StackModel<T>, Seq<MessageResult>)
    decreases msgs.len(),
{
    if msgs.len() == 0 {
        (s, Seq::empty())
    } else {
        let (s1, rs) = insert_seq(s, msgs.drop_last());
        let (s2, r) = insert_model(s1, msgs.last());
        (s2, rs.push(r))
    }
}

/// `n` consecutive non-blocking removes starting from `s`: the state reached
/// and the element each one returned.
pub open spec fn remove_seq<T>(s: StackModel<T>, n: nat) -> (StackModel<T>, Seq<Option<T>>)
    decreases n,
{
    if n == 0 {
        (s, Seq::empty())
    } else {
        let (s1, v, r) = remove_model(s);
        let (s2, vs) = remove_seq(s1, (n - 1) as nat);
        (s2, seq![v] + vs)
    }
}

/// Inserts into an open container with room for all of them all succeed
/// and stack the messages on top, in order.
pub proof fn lemma_inserts_that_fit<T>(s: StackModel<T>, msgs: Seq<T>)
    requires
        !s.closed,
        s.items.len() + msgs.len() <= s.capacity,
    ensures
        insert_seq(s, msgs).0 == (StackModel { items: s.items + msgs, ..s }),
        insert_seq(s, msgs).1.len() == msgs.len(),
        forall|i: int| 0 <= i < msgs.len() ==> insert_seq(s, msgs).1[i] == MessageResult::Success,
    decreases msgs.len(),
{
    if msgs.len() > 0 {
        lemma_inserts_that_fit(s, msgs.drop_last());
        assert(s.items + msgs.drop_last() + seq![msgs.last()] =~= s.items + msgs);
        assert(s.items + msgs.drop_last() + seq![msgs.last()] =~= (s.items + msgs.drop_last()).push(msgs.last()));
    }
}

/// Filling a fresh container of capacity `capacity` takes exactly
/// `capacity` successful non-blocking inserts; the next one answers `Full`
/// and the length stays at the capacity.
pub proof fn lemma_full_after_capacity_inserts<T>(capacity: nat, msgs: Seq<T>, extra: T)
    requires
        capacity >= 1,
        msgs.len() == capacity,
    ensures
        forall|i: int| 0 <= i < capacity ==> insert_seq(empty_model::<T>(capacity), msgs).1[i] == MessageResult::Success,
        insert_seq(empty_model::<T>(capacity), msgs).0.items.len() == capacity,
        insert_model(insert_seq(empty_model::<T>(capacity), msgs).0, extra)
            == (insert_seq(empty_model::<T>(capacity), msgs).0, MessageResult::Full),
{
    let e = empty_model::<T>(capacity);
    lemma_inserts_that_fit(e, msgs);
    assert(e.items + msgs =~= msgs);
}

/// In a full open container a blocking insert has to wait and a
/// non-blocking one changes nothing; once a remove has freed a slot the
/// insert no longer waits and succeeds.
pub proof fn lemma_blocked_insert_resumes_after_remove<T>(s: StackModel<T>, message: T)
    requires
        s.valid(),
        !s.closed,
        s.is_full(),
    ensures
        s.must_wait_for_space(),
        insert_model(s, message) == (s, MessageResult::Full),
        remove_model(s).2 == MessageResult::Success,
        !remove_model(s).0.must_wait_for_space(),
        insert_model(remove_model(s).0, message).1 == MessageResult::Success,
        insert_model(remove_model(s).0, message).0.items == s.items.drop_last().push(message),
{
}

/// Consecutive removes with no insert in between give back the last
/// inserted messages in reverse order and restore the earlier state.
pub proof fn lemma_removes_reverse_inserts<T>(s: StackModel<T>, msgs: Seq<T>)
    requires
        !s.closed,
        s.items.len() + msgs.len() <= s.capacity,
    ensures
        remove_seq(insert_seq(s, msgs).0, msgs.len()).0 == s,
        remove_seq(insert_seq(s, msgs).0, msgs.len()).1.len() == msgs.len(),
        forall|i: int| 0 <= i < msgs.len()
            ==> remove_seq(insert_seq(s, msgs).0, msgs.len()).1[i] == Some(msgs[msgs.len() - 1 - i]),
{
    lemma_inserts_that_fit(s, msgs);
    lemma_remove_top(s, msgs);
}

/// Removing `msgs.len()` times from `s` with `msgs` stacked on top.
proof fn lemma_remove_top<T>(s: StackModel<T>, msgs: Seq<T>)
    requires
        !s.closed,
    ensures
        remove_seq(StackModel { items: s.items + msgs, ..s }, msgs.len()).0 == s,
        remove_seq(StackModel { items: s.items + msgs, ..s }, msgs.len()).1.len() == msgs.len(),
        forall|i: int| 0 <= i < msgs.len()
            ==> remove_seq(StackModel { items: s.items + msgs, ..s }, msgs.len()).1[i] == Some(msgs[msgs.len() - 1 - i]),
    decreases msgs.len(),
{
    let t = StackModel { items: s.items + msgs, ..s };
    if msgs.len() == 0 {
        assert(s.items + msgs =~= s.items);
    } else {
        let rest = msgs.drop_last();
        lemma_remove_top(s, rest);
        assert((s.items + msgs).drop_last() =~= s.items + rest);
        let (t1, v, r) = remove_model(t);
        assert(t1 == StackModel { items: s.items + rest, ..s });
        let vs = remove_seq(t1, rest.len()).1;
        assert forall|i: int| 0 <= i < msgs.len()
            implies remove_seq(t, msgs.len()).1[i] == Some(msgs[msgs.len() - 1 - i]) by {
            if i > 0 {
                assert(remove_seq(t, msgs.len()).1[i] == vs[i - 1]);
            }
        }
    }
}

/// Closure is terminal: afterwards insert and remove answer `Closed` and
/// change nothing, and closing again is a no-op.
pub proof fn lemma_closed_is_terminal<T>(s: StackModel<T>, message: T)
    ensures
        insert_model(close_model(s), message) == (close_model(s), MessageResult::Closed),
        remove_model(close_model(s)) == (close_model(s), None::<T>, MessageResult::Closed),
        close_model(close_model(s)) == close_model(s),
        !close_model(s).must_wait_for_space(),
        !close_model(s).must_wait_for_item(),
        close_model(s).items == s.items,
{
}

/// Every operation keeps the length within the capacity, and the capacity
/// never changes.
pub proof fn lemma_operations_keep_valid<T>(s: StackModel<T>, message: T)
    requires
        s.valid(),
    ensures
        insert_model(s, message).0.valid(),
        insert_model(s, message).0.capacity == s.capacity,
        remove_model(s).0.valid(),
        remove_model(s).0.capacity == s.capacity,
        close_model(s).valid(),
        close_model(s).capacity == s.capacity,
{
}

/// One operation as the lock serialises it. A predicate removal is given
/// by the position its predicate first matched, if any.
pub enum Step<T> {
    Insert(T),
    Remove,
    RemoveMatching(Option<int>),
    Close,
}

/// The state after one step and whether it added (+1), took (-1) or left
/// (0) an element.
pub open spec fn apply_step<T>(s: StackModel<T>, step: Step<T>) -> (StackModel<T>, int) {
    match step {
        Step::Insert(m) => {
            let (t, r) = insert_model(s, m);
            (t, if r == MessageResult::Success { 1int } else { 0int })
        },
        Step::Remove => {
            let (t, v, r) = remove_model(s);
            (t, if r == MessageResult::Success { -1int } else { 0int })
        },
        Step::RemoveMatching(found) => {
            let (t, r) = remove_matching_model(s, found);
            (t, if r == MessageResult::Success { -1int } else { 0int })
        },
        Step::Close => (close_model(s), 0int),
    }
}

/// The state after `steps` in order, and the number of successful inserts
/// minus the number of successful removals among them.
pub open spec fn apply_steps<T>(s: StackModel<T>, steps: Seq<Step<T>>) -> (StackModel<T>, int)
    decreases steps.len(),
{
    if steps.len() == 0 {
        (s, 0)
    } else {
        let (t, n) = apply_steps(s, steps.drop_last());
        let (u, d) = apply_step(t, steps.last());
        (u, n + d)
    }
}

/// Whatever operations producers and consumers perform, in whatever order
/// the lock admits them, the length grows by the successful inserts less
/// the successful removals, never exceeds the capacity, and a closed
/// container stays closed.
pub proof fn lemma_length_counts_successes<T>(s: StackModel<T>, steps: Seq<Step<T>>)
    requires
        s.valid(),
    ensures
        apply_steps(s, steps).0.valid(),
        apply_steps(s, steps).0.capacity == s.capacity,
        apply_steps(s, steps).0.items.len() == s.items.len() + apply_steps(s, steps).1,
        s.closed ==> apply_steps(s, steps).0.closed,
    decreases steps.len(),
{
    if steps.len() > 0 {
        lemma_length_counts_successes(s, steps.drop_last());
    }
}

} // verus!
