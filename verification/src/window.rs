use std::collections::VecDeque;
use vstd::prelude::*;

verus! {

/// The window after appending `value` to `window` when it may hold at most
/// `capacity` values: a full window first gives up its oldest value.
pub open spec fn capped_push<T>(window: Seq<T>, value: T, capacity: nat) -> Seq<T> {
    if window.len() == capacity && window.len() > 0 {
        window.drop_first().push(value)
    } else {
        window.push(value)
    }
}

/// Appends `value` to `queue`, first dropping the oldest value when the queue
/// already holds `capacity` values.
pub fn push_capped<T>(queue: &mut VecDeque<T>, value: T, capacity: usize)
    ensures
        final(queue)@ == capped_push(old(queue)@, value, capacity as nat),
{
    if queue.len() == capacity {
        let _ = queue.pop_front();
    }
    queue.push_back(value);
}

/// A window that never exceeds its capacity keeps exactly the latest
/// `capacity` values of its history: pushing into it yields the longest suffix
/// of `window + [value]` that fits.
pub proof fn lemma_capped_push_keeps_latest<T>(window: Seq<T>, value: T, capacity: nat)
    requires
        capacity > 0,
        window.len() <= capacity,
    ensures
        capped_push(window, value, capacity).len() <= capacity,
        capped_push(window, value, capacity).len() == if window.len() + 1 <= capacity {
            window.len() + 1
        } else {
            capacity
        },
        capped_push(window, value, capacity) =~= window.push(value).subrange(
            window.len() + 1 - capped_push(window, value, capacity).len(),
            window.len() + 1 as int,
        ),
        capped_push(window, value, capacity).last() == value,
{
}

} // verus!
