//! The microphone sample buffer that the ADC interrupt fills.
//!
//! Each conversion result goes to the back of the ring buffer. A result that
//! finds all seven places taken wraps the ring: the buffer then reads as
//! empty, and the seven samples it held, together with the new one, are gone.
//! The handler gets there with the checked `enqueue`, and, when that refuses
//! the sample, by taking the held samples off the front until none is left.
use vstd::prelude::*;
use heapless::spsc::Queue;
use crate::bounded::QUEUE_CAPACITY;
use crate::spsc::{sample_items, enqueue_sample, dequeue_sample};

verus! {

/// What the sample buffer holds after one ADC interrupt: a conversion result
/// goes to the back when there is room and wraps the ring to empty when it is
/// full; no result leaves the buffer as it is.
pub open spec fn after_reading(held: Seq<u16>, reading: Option<u16>) -> Seq<u16> {
    match reading {
        Some(sample) => if held.len() < QUEUE_CAPACITY { held.push(sample) } else { Seq::empty() },
        None => held,
    }
}

/// What the sample buffer holds after each of `readings` in turn.
pub open spec fn after_readings(held: Seq<u16>, readings: Seq<Option<u16>>) -> Seq<u16>
    decreases readings.len(),
{
    if readings.len() == 0 {
        held
    } else {
        after_readings(after_reading(held, readings[0]), readings.drop_first())
    }
}

/// The conversion results among `readings`, in order.
pub open spec fn conversions(readings: Seq<Option<u16>>) -> Seq<u16>
    decreases readings.len(),
{
    if readings.len() == 0 {
        Seq::empty()
    } else {
        match readings[0] {
            Some(sample) => seq![sample] + conversions(readings.drop_first()),
            None => conversions(readings.drop_first()),
        }
    }
}

/// The samples of `arrived` that came after the ring last wrapped: the ring
/// has `QUEUE_CAPACITY + 1` slots, so it wraps on every arrival whose count is
/// a multiple of that, and holds the ones since.
pub open spec fn since_last_wrap(arrived: Seq<u16>) -> Seq<u16> {
    let n = arrived.len() as int;
    let slots = QUEUE_CAPACITY as int + 1;
    arrived.subrange(n - n % slots, n)
}

/// The body of the ADC result-ready interrupt: `reading` is what the ADC
/// handed over (`None` when no conversion had completed). A completed
/// conversion is buffered for the main program; into a full buffer it wraps
/// the ring, which then holds nothing.
pub fn on_adc_ready(samples: &mut Queue<u16, 8>, reading: Option<u16>)
    ensures
        sample_items(*final(samples)) == after_reading(sample_items(*old(samples)), reading),
{
    if let Some(sample) = reading {
        let stored = enqueue_sample(samples, sample);
        if stored.is_err() {
            // The ring was full and refused the sample: take every held
            // sample off the front, so that the ring reads empty.
            loop
                invariant_except_break
                    sample_items(*old(samples)).len() >= QUEUE_CAPACITY,
                ensures
                    sample_items(*samples).len() == 0,
                decreases sample_items(*samples).len(),
            {
                if dequeue_sample(samples).is_none() {
                    break;
                }
            }
            assert(sample_items(*samples) =~= Seq::<u16>::empty());
        }
    }
}

/// What the buffer holds after each of `items` arrives in turn.
spec fn after_arrivals(held: Seq<u16>, items: Seq<u16>) -> Seq<u16>
    decreases items.len(),
{
    if items.len() == 0 {
        held
    } else {
        after_arrivals(after_reading(held, Some(items[0])), items.drop_first())
    }
}

proof fn lemma_readings_are_arrivals(held: Seq<u16>, readings: Seq<Option<u16>>)
    ensures
        after_readings(held, readings) == after_arrivals(held, conversions(readings)),
    decreases readings.len(),
{
    if readings.len() > 0 {
        let rest = readings.drop_first();
        lemma_readings_are_arrivals(after_reading(held, readings[0]), rest);
        match readings[0] {
            Some(sample) => {
                let c = seq![sample] + conversions(rest);
                assert(c[0] == sample);
                assert(c.drop_first() =~= conversions(rest));
            },
            None => {},
        }
    }
}

proof fn lemma_arrivals_since_last_wrap(held: Seq<u16>, items: Seq<u16>)
    requires
        held.len() <= QUEUE_CAPACITY,
    ensures
        after_arrivals(held, items) == since_last_wrap(held + items),
    decreases items.len(),
{
    if items.len() == 0 {
        assert(held + items =~= held);
        assert(since_last_wrap(held) =~= held);
    } else {
        let rest = items.drop_first();
        let next = after_reading(held, Some(items[0]));
        lemma_arrivals_since_last_wrap(next, rest);
        if held.len() < QUEUE_CAPACITY {
            assert(next + rest =~= held + items);
        } else {
            let all = held + items;
            let r = rest.len() as int;
            assert(all.len() == 8 + r);
            assert((8 + r) % 8 == r % 8);
            assert(Seq::<u16>::empty() + rest =~= rest);
            assert(since_last_wrap(all) =~= since_last_wrap(rest));
        }
    }
}

/// Interrupts that keep filling the sample buffer while nothing drains it
/// leave in it the conversion results that completed since the ring last
/// wrapped, in the order in which they completed; the ring wraps, and drops
/// all it held, on the arrival that finds it full.
pub proof fn lemma_sample_buffer_since_last_wrap(held: Seq<u16>, readings: Seq<Option<u16>>)
    requires
        held.len() <= QUEUE_CAPACITY,
    ensures
        after_readings(held, readings) == since_last_wrap(held + conversions(readings)),
{
    lemma_readings_are_arrivals(held, readings);
    lemma_arrivals_since_last_wrap(held, conversions(readings));
}

} // verus!
