//! The main loop of the firmware: blink the user LED forever.
use vstd::prelude::*;

verus! {

/// How long the main loop waits between two toggles of the LED, in ms.
pub const BLINK_INTERVAL_MS: u16 = 200;

/// The level that the user LED pin is driven to, as the main loop tracks it.
pub struct Blinker {
    /// `true` while the pin is driven high.
    pub led_high: bool,
}

/// The level of the LED after one turn of the main loop.
pub open spec fn next_level(led_high: bool) -> bool {
    !led_high
}

impl Blinker {
    /// The LED as the firmware leaves it after start-up: driven low.
    pub fn new() -> (b: Blinker)
        ensures
            !b.led_high,
    {
        Blinker { led_high: false }
    }

    /// One turn of the main loop: the LED is toggled, and the result is how
    /// long to wait before the next turn.
    pub fn step(&mut self) -> (wait_ms: u16)
        ensures
            final(self).led_high == next_level(old(self).led_high),
            wait_ms == BLINK_INTERVAL_MS,
    {
        self.led_high = !self.led_high;
        BLINK_INTERVAL_MS
    }
}

/// Two turns of the main loop bring the LED back to the level it had.
pub proof fn lemma_two_turns_restore_level(led_high: bool)
    ensures
        next_level(next_level(led_high)) == led_high,
{
}

} // verus!
