//! The `heapless` single-producer single-consumer queue, as the verified code
//! sees it: an opaque type whose contents, oldest first, are named per item
//! type, and its `enqueue` method.
use vstd::prelude::*;
use heapless::spsc::Queue;
use crate::buttons::ButtonEvent;

verus! {

/// `heapless::spsc::Queue`: a ring buffer of `N` slots that holds at most
/// `N - 1` items.
#[verifier::external_type_specification]
#[verifier::external_body]
#[verifier::reject_recursive_types(T)]
pub struct ExSpscQueue<T, const N: usize>(heapless::spsc::Queue<T, N>);

/// The samples that a microphone sample queue holds, oldest first.
pub uninterp spec fn sample_items(q: Queue<u16, 8>) -> Seq<u16>;

/// The button events that a button event queue holds, oldest first.
pub uninterp spec fn button_items(q: Queue<ButtonEvent, 8>) -> Seq<ButtonEvent>;

/// `heapless::spsc::Queue::<u16, 8>::enqueue`. Trusted: when the queue holds
/// fewer than `N - 1 = 7` samples it writes `v` into the slot after the last
/// one and returns `Ok`; otherwise it hands `v` back in `Err` and the queue is
/// untouched. No queue ever holds more than 7 items.
#[verifier::external_body]
pub(crate) fn enqueue_sample(q: &mut Queue<u16, 8>, v: u16) -> (r: Result<(), u16>)
    ensures
        sample_items(*old(q)).len() < 7 ==> r is Ok && sample_items(*final(q)) == sample_items(*old(q)).push(v),
        sample_items(*old(q)).len() >= 7 ==> (r matches Err(w) && w == v) && sample_items(*final(q)) == sample_items(*old(q)),
        sample_items(*final(q)).len() <= 7,
{
    q.enqueue(v)
}

/// `heapless::spsc::Queue::<u16, 8>::dequeue`. Trusted: on an empty queue it
/// returns `None` and leaves the queue as it was; otherwise it returns the
/// oldest sample and removes it from the front.
#[verifier::external_body]
pub(crate) fn dequeue_sample(q: &mut Queue<u16, 8>) -> (r: Option<u16>)
    ensures
        sample_items(*old(q)).len() == 0 ==> r is None && sample_items(*final(q)) == sample_items(*old(q)),
        sample_items(*old(q)).len() > 0 ==> r == Some(sample_items(*old(q))[0]) && sample_items(*final(q)) == sample_items(*old(q)).drop_first(),
{
    q.dequeue()
}

/// `heapless::spsc::Queue::<ButtonEvent, 8>::enqueue`. Trusted: the same
/// behaviour as for samples: appended when fewer than 7 events are held,
/// handed back with the queue untouched otherwise; never more than 7 held.
#[verifier::external_body]
pub(crate) fn enqueue_button_event(q: &mut Queue<ButtonEvent, 8>, v: ButtonEvent) -> (r: Result<(), ButtonEvent>)
    ensures
        button_items(*old(q)).len() < 7 ==> r is Ok && button_items(*final(q)) == button_items(*old(q)).push(v),
        button_items(*old(q)).len() >= 7 ==> (r matches Err(w) && w == v) && button_items(*final(q)) == button_items(*old(q)),
        button_items(*final(q)).len() <= 7,
{
    q.enqueue(v)
}

} // verus!
