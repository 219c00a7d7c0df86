# wio_firmware

Firmware for the Seeed Wio Terminal, split in two:

- `src/` is the verified library: the microphone sample buffer filled by the
  ADC interrupt (`samples.rs`), the button event buffer filled by the button
  interrupts (`buttons.rs`), the bounded FIFO model both are stated over and
  its laws (`bounded.rs`), the `heapless` queue as the proofs see it
  (`spsc.rs`), the clock handed to the SD card driver (`clock.rs`) and the
  LED blink loop (`blink.rs`).
- `app/main.rs` brings up the board and runs the interrupts and the main loop,
  calling the library for every decision.
