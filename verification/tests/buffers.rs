use heapless::spsc::Queue;
use wio_firmware::{on_adc_ready, on_button_event, Button, ButtonEvent, QUEUE_CAPACITY};

fn drain<T>(q: &mut Queue<T, 8>) -> Vec<T> {
    let mut out = Vec::new();
    while let Some(x) = q.dequeue() {
        out.push(x);
    }
    out
}

#[test]
fn adc_reading_is_buffered() {
    let mut q: Queue<u16, 8> = Queue::new();
    on_adc_ready(&mut q, Some(1234));
    assert_eq!(q.len(), 1);
    assert_eq!(drain(&mut q), vec![1234]);
}

#[test]
fn adc_without_result_leaves_buffer() {
    let mut q: Queue<u16, 8> = Queue::new();
    on_adc_ready(&mut q, None);
    assert!(q.is_empty());
    on_adc_ready(&mut q, Some(7));
    on_adc_ready(&mut q, None);
    assert_eq!(drain(&mut q), vec![7]);
}

#[test]
fn adc_samples_keep_their_order() {
    let mut q: Queue<u16, 8> = Queue::new();
    for s in [5u16, 3, 4095, 0] {
        on_adc_ready(&mut q, Some(s));
    }
    assert_eq!(drain(&mut q), vec![5, 3, 4095, 0]);
}

#[test]
fn adc_seven_samples_fill_buffer() {
    let mut q: Queue<u16, 8> = Queue::new();
    for s in 100u16..107 {
        on_adc_ready(&mut q, Some(s));
        on_adc_ready(&mut q, None);
    }
    assert_eq!(q.len(), QUEUE_CAPACITY);
    assert!(q.is_full());
    assert_eq!(drain(&mut q), vec![100, 101, 102, 103, 104, 105, 106]);
}

#[test]
fn adc_sample_into_full_buffer_wraps_to_empty() {
    let mut q: Queue<u16, 8> = Queue::new();
    for s in 100u16..108 {
        on_adc_ready(&mut q, Some(s));
    }
    assert!(q.is_empty());
    assert_eq!(q.dequeue(), None);
}

#[test]
fn adc_buffer_holds_samples_since_last_wrap() {
    let mut q: Queue<u16, 8> = Queue::new();
    for s in 100u16..110 {
        on_adc_ready(&mut q, Some(s));
        on_adc_ready(&mut q, None);
    }
    assert_eq!(q.len(), 2);
    assert_eq!(drain(&mut q), vec![108, 109]);
}

#[test]
fn adc_room_after_draining_is_used_again() {
    let mut q: Queue<u16, 8> = Queue::new();
    for s in 0u16..7 {
        on_adc_ready(&mut q, Some(s));
    }
    assert_eq!(q.dequeue(), Some(0));
    on_adc_ready(&mut q, Some(50));
    assert_eq!(drain(&mut q), vec![1, 2, 3, 4, 5, 6, 50]);
}

#[test]
fn button_event_is_buffered() {
    let mut q: Queue<ButtonEvent, 8> = Queue::new();
    let e = ButtonEvent { button: Button::Click, down: true };
    on_button_event(&mut q, e);
    assert_eq!(q.len(), 1);
    assert_eq!(q.dequeue(), Some(ButtonEvent { button: Button::Click, down: true }));
}

#[test]
fn button_events_beyond_capacity_are_dropped() {
    let buttons = [
        Button::TopLeft,
        Button::TopMiddle,
        Button::Down,
        Button::Up,
        Button::Left,
        Button::Right,
        Button::Click,
    ];
    let mut q: Queue<ButtonEvent, 8> = Queue::new();
    for b in buttons {
        on_button_event(&mut q, ButtonEvent { button: b, down: true });
    }
    on_button_event(&mut q, ButtonEvent { button: Button::Up, down: false });
    let got = drain(&mut q);
    assert_eq!(got.len(), 7);
    for (i, b) in buttons.iter().enumerate() {
        assert_eq!(got[i], ButtonEvent { button: *b, down: true });
    }
}
