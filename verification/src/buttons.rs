//! Button events and the interrupt-side handler that buffers them.
use vstd::prelude::*;
use heapless::spsc::Queue;
use crate::bounded::bounded_push;
use crate::spsc::{button_items, enqueue_button_event};

verus! {

/// The buttons and the five-way switch of the Wio Terminal.
#[derive(Clone, Copy, Debug, PartialEq, Eq, Structural)]
pub enum Button {
    TopLeft,
    TopMiddle,
    Down,
    Up,
    Left,
    Right,
    Click,
}

/// A press (`down`) or a release of one button.
#[derive(Clone, Copy, Debug, PartialEq, Eq, Structural)]
pub struct ButtonEvent {
    pub button: Button,
    pub down: bool,
}

/// Buffers one button event for the main program, as the button interrupt
/// does: the event goes to the back of the queue, or is dropped when the
/// queue is full.
pub fn on_button_event(events: &mut Queue<ButtonEvent, 8>, event: ButtonEvent)
    ensures
        button_items(*final(events)) == bounded_push(button_items(*old(events)), event),
{
    let _ = enqueue_button_event(events, event);
}

} // verus!
