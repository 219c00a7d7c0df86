//! Verified core of a Wio Terminal firmware: the microphone sample buffer
//! filled by the ADC interrupt, the button event buffer filled by the button
//! interrupts, the fixed clock handed to the SD card driver, and the LED
//! blink loop of the main program.
mod blink;
mod bounded;
mod buttons;
mod clock;
mod samples;
mod spsc;

pub use bounded::{QUEUE_CAPACITY, bounded_push, bounded_push_all, first_fitting};
pub use bounded::{lemma_bounded_push_all_keeps_earliest, lemma_bounded_push_all_within_capacity};
pub use buttons::{Button, ButtonEvent, on_button_event};
pub use samples::{after_reading, after_readings, conversions, since_last_wrap, on_adc_ready, lemma_sample_buffer_since_last_wrap};
pub use spsc::{sample_items, button_items};
pub use blink::{BLINK_INTERVAL_MS, Blinker, next_level, lemma_two_turns_restore_level};
pub use clock::{Clock, Timestamp, epoch};
