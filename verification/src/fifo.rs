//! The model of a bounded first-in-first-out store: a sequence that keeps
//! only its newest entries.

use std::collections::VecDeque;
use vstd::prelude::*;

verus! {

/// The newest `n` entries of `s`, oldest first; all of `s` where it holds no
/// more than `n`.
pub open spec fn keep_last<T>(s: Seq<T>, n: nat) -> Seq<T> {
    if s.len() <= n {
        s
    } else {
        s.subrange(s.len() - n, s.len() as int)
    }
}

/// What a store of the given capacity holds after `value` arrives: the oldest
/// entry leaves when the store is full.
pub open spec fn push_bounded<T>(contents: Seq<T>, capacity: nat, value: T) -> Seq<T> {
    keep_last(contents.push(value), capacity)
}

/// What a store of the given capacity holds after the entries of `values`
/// arrived one by one, first to last.
pub open spec fn push_all_bounded<T>(contents: Seq<T>, capacity: nat, values: Seq<T>) -> Seq<T>
    decreases values.len(),
{
    if values.len() == 0 {
        contents
    } else {
        push_all_bounded(
            push_bounded(contents, capacity, values[0]),
            capacity,
            values.subrange(1, values.len() as int),
        )
    }
}

/// `keep_last` returns `min(s.len(), n)` entries, and they are the last ones
/// of `s` in their order.
pub proof fn lemma_keep_last_entries<T>(s: Seq<T>, n: nat)
    ensures
        keep_last(s, n).len() == if s.len() <= n { s.len() } else { n },
        forall|i: int|
            0 <= i < keep_last(s, n).len() ==> #[trigger] keep_last(s, n)[i] == s[s.len()
                - keep_last(s, n).len() + i],
{
}

/// Dropping old entries early does not change what is left in the end.
pub proof fn lemma_keep_last_absorbs<T>(a: Seq<T>, b: Seq<T>, n: nat)
    ensures
        keep_last(keep_last(a, n) + b, n) == keep_last(a + b, n),
{
    let left = keep_last(keep_last(a, n) + b, n);
    let right = keep_last(a + b, n);
    assert(left.len() == right.len());
    assert forall|i: int| 0 <= i < left.len() implies left[i] == right[i] by {
        lemma_keep_last_entries(keep_last(a, n) + b, n);
        lemma_keep_last_entries(a + b, n);
        lemma_keep_last_entries(a, n);
    }
    assert(left =~= right);
}

/// Entries pushed one by one leave the newest `capacity` of all that was
/// there and all that came.
pub proof fn lemma_push_all_bounded<T>(contents: Seq<T>, capacity: nat, values: Seq<T>)
    requires
        contents.len() <= capacity,
    ensures
        push_all_bounded(contents, capacity, values) == keep_last(contents + values, capacity),
    decreases values.len(),
{
    if values.len() == 0 {
        assert(contents + values =~= contents);
    } else {
        let next = push_bounded(contents, capacity, values[0]);
        let rest = values.subrange(1, values.len() as int);
        lemma_push_all_bounded(next, capacity, rest);
        lemma_keep_last_absorbs(contents.push(values[0]), rest, capacity);
        assert(contents.push(values[0]) + rest =~= contents + values);
    }
}

/// For any sequence of `values` pushed into an empty store of capacity
/// `capacity`, the store then holds `min(values.len(), capacity)` entries:
/// exactly the last ones pushed, in the order in which they came.
pub proof fn lemma_push_sequence<T>(capacity: nat, values: Seq<T>)
    ensures
        push_all_bounded(Seq::<T>::empty(), capacity, values) == keep_last(values, capacity),
        push_all_bounded(Seq::<T>::empty(), capacity, values).len() == if values.len()
            <= capacity {
            values.len()
        } else {
            capacity
        },
        forall|i: int|
            0 <= i < keep_last(values, capacity).len() ==> #[trigger] keep_last(
                values,
                capacity,
            )[i] == values[values.len() - keep_last(values, capacity).len() + i],
{
    lemma_push_all_bounded(Seq::<T>::empty(), capacity, values);
    assert(Seq::<T>::empty() + values =~= values);
    lemma_keep_last_entries(values, capacity);
}

/// The most entries that a queue makes room for ahead of time.
pub const MAX_PREALLOCATED: usize = 65_536;

/// An empty queue with room for `capacity` entries made ahead of time, so
/// that filling it does not stop to allocate; for no more than
/// `MAX_PREALLOCATED` entries, beyond which the queue grows as it fills.
pub fn queue_with_room<T>(capacity: usize) -> (queue: VecDeque<T>)
    ensures
        queue@ == Seq::<T>::empty(),
{
    if capacity <= MAX_PREALLOCATED {
        VecDeque::with_capacity(capacity)
    } else {
        VecDeque::with_capacity(MAX_PREALLOCATED)
    }
}

/// Appends `value` to `queue`, first dropping the oldest entry where the
/// queue already holds `capacity` entries. A queue of capacity zero stays
/// empty.
pub fn push_evicting<T>(queue: &mut VecDeque<T>, capacity: usize, value: T)
    requires
        old(queue)@.len() <= capacity,
    ensures
        final(queue)@ == push_bounded(old(queue)@, capacity as nat, value),
        final(queue)@.len() <= capacity,
{
    if capacity == 0 {
        assert(push_bounded(queue@, 0, value) =~= queue@);
        return ;
    }
    if queue.len() == capacity {
        let _ = queue.pop_front();
    }
    queue.push_back(value);
    assert(queue@ =~= push_bounded(old(queue)@, capacity as nat, value));
}

} // verus!
