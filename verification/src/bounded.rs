//! The mathematical model of a bounded first-in first-out buffer that drops
//! what arrives while it is full.
use vstd::prelude::*;

verus! {

/// The number of items that a queue of 8 slots holds at most.
pub const QUEUE_CAPACITY: usize = 7;

/// What a buffer holds after `item` arrives: `item` at the back when there is
/// room, the buffer unchanged when it is full.
pub open spec fn bounded_push<T>(held: Seq<T>, item: T) -> Seq<T> {
    if held.len() < QUEUE_CAPACITY { held.push(item) } else { held }
}

/// What a buffer holds after each of `items` arrives in turn.
pub open spec fn bounded_push_all<T>(held: Seq<T>, items: Seq<T>) -> Seq<T>
    decreases items.len(),
{
    if items.len() == 0 {
        held
    } else {
        bounded_push_all(bounded_push(held, items[0]), items.drop_first())
    }
}

/// The first `QUEUE_CAPACITY` items of `s`, or all of them where there are fewer.
pub open spec fn first_fitting<T>(s: Seq<T>) -> Seq<T> {
    if s.len() <= QUEUE_CAPACITY { s } else { s.take(QUEUE_CAPACITY as int) }
}

/// A buffer that is filled and never drained keeps the earliest items, in the
/// order in which they arrived, up to its capacity: whatever arrives once it
/// is full is lost.
pub proof fn lemma_bounded_push_all_keeps_earliest<T>(held: Seq<T>, items: Seq<T>)
    requires
        held.len() <= QUEUE_CAPACITY,
    ensures
        bounded_push_all(held, items) == first_fitting(held + items),
    decreases items.len(),
{
    if items.len() == 0 {
        assert(held + items =~= held);
    } else {
        let next = bounded_push(held, items[0]);
        lemma_bounded_push_all_keeps_earliest(next, items.drop_first());
        if held.len() < QUEUE_CAPACITY {
            assert(next + items.drop_first() =~= held + items);
        } else {
            assert(first_fitting(held + items.drop_first()) =~= held);
            assert(first_fitting(held + items) =~= held);
        }
    }
}

/// No arrival takes a buffer past its capacity.
pub proof fn lemma_bounded_push_all_within_capacity<T>(held: Seq<T>, items: Seq<T>)
    requires
        held.len() <= QUEUE_CAPACITY,
    ensures
        bounded_push_all(held, items).len() <= QUEUE_CAPACITY,
{
    lemma_bounded_push_all_keeps_earliest(held, items);
}

} // verus!
