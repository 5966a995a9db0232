use emma65::input_buffer::InputBuffer;
use emma65::ring::RING_CAPACITY;

#[test]
fn read_data_resets_interrupt_flag() {
    let mut buf = InputBuffer::new();
    buf.interrupt_flag = true;
    buf.read_data();
    assert!(!buf.interrupt_flag, "expected interrupt flag reset");
}

#[test]
fn read_data_zero_when_nothing_latched_or_buffered() {
    let mut buf = InputBuffer::new();
    assert_eq!(buf.read_data(), 0);
}

#[test]
fn read_data_prefers_latched_value() {
    let mut buf = InputBuffer::new();
    buf.latch = 0x42;
    assert_eq!(buf.read_data(), 0x42);
    assert_eq!(buf.latch, 0);
}

#[test]
fn read_data_falls_back_to_buffered_value() {
    let mut buf = InputBuffer::new();
    buf.ring.put(0x42);
    assert_eq!(buf.read_data(), 0x42);
    assert_eq!(buf.latch, 0);
}

#[test]
fn read_latch_resets_interrupt_flag() {
    let mut buf = InputBuffer::new();
    buf.interrupt_flag = true;
    buf.read_latch();
    assert!(!buf.interrupt_flag, "expected interrupt flag reset");
}

#[test]
fn read_latch_returns_existing_latch_without_draining_ring() {
    let mut buf = InputBuffer::new();
    buf.latch = 0x42;
    buf.ring.put(0x43);
    assert_eq!(buf.read_latch(), 0x42);
    assert_eq!(buf.latch, 0x42);
    assert!(!buf.ring.is_empty());
}

#[test]
fn read_latch_latches_buffered_value_when_nothing_latched() {
    let mut buf = InputBuffer::new();
    buf.ring.put(0x42);
    assert_eq!(buf.read_latch(), 0x42);
    assert_eq!(buf.latch, 0x42);
}

#[test]
fn read_latch_zero_when_nothing_latched_or_buffered() {
    let mut buf = InputBuffer::new();
    assert_eq!(buf.read_latch(), 0);
}

#[test]
fn write_latch_sets_latch() {
    let mut buf = InputBuffer::new();
    buf.write_latch(0x42);
    assert_eq!(buf.latch, 0x42);
    buf.write_latch(0);
    assert_eq!(buf.latch, 0);
}

#[test]
fn write_latch_clears_ring() {
    let mut buf = InputBuffer::new();
    buf.ring.put(0x42);
    buf.write_latch(0);
    assert!(buf.ring.is_empty(), "expected empty ring");
}

#[test]
fn write_latch_break_key_sets_interrupt_flag() {
    let mut buf = InputBuffer::new();
    buf.set_break_key(0x3);
    buf.write_latch(0x3);
    assert_eq!(buf.latch, 0x3);
    assert!(buf.interrupt_flag, "expected interrupt flag set");
}

#[test]
fn write_latch_non_break_key_clears_interrupt_flag() {
    let mut buf = InputBuffer::new();
    buf.interrupt_flag = true;
    buf.write_latch(0x42);
    assert!(!buf.interrupt_flag, "expected interrupt flag reset");
}

#[test]
fn push_buffers_byte() {
    let mut buf = InputBuffer::new();
    buf.push(0x42);
    assert_eq!(buf.ring.peek(), Some(0x42));
}

#[test]
fn push_break_key_latches_and_sets_interrupt_flag() {
    let mut buf = InputBuffer::new();
    buf.set_break_key(0x3);
    buf.push(0x3);
    assert_eq!(buf.latch, 0x3);
    assert!(buf.interrupt_flag, "expected interrupt flag set");
}

#[test]
fn push_break_key_clears_ring() {
    let mut buf = InputBuffer::new();
    buf.set_break_key(0x3);
    buf.ring.put(0x42);
    buf.ring.put(0x43);
    buf.push(0x3);
    assert!(buf.ring.is_empty(), "expected empty ring");
}

#[test]
fn push_tail_drop_when_ring_full() {
    let mut buf = InputBuffer::new();
    for i in 0..RING_CAPACITY {
        buf.push(i as u8);
    }
    for i in 0..(RING_CAPACITY - 1) {
        assert_eq!(buf.ring.get(), Some(i as u8));
    }
    assert!(buf.ring.is_empty(), "expected empty ring");
}

#[test]
fn peek_data_prefers_latched_value() {
    let mut buf = InputBuffer::new();
    buf.latch = 0x42;
    buf.ring.put(0x43);
    assert_eq!(buf.peek_data(), 0x42);
    assert_eq!(buf.latch, 0x42, "peek must not consume the latch");
}

#[test]
fn peek_data_falls_back_to_buffered_value_without_consuming() {
    let mut buf = InputBuffer::new();
    buf.ring.put(0x42);
    assert_eq!(buf.peek_data(), 0x42);
    assert_eq!(buf.peek_data(), 0x42, "peek must not drain the ring");
}

#[test]
fn peek_latch_returns_latch_without_side_effects() {
    let mut buf = InputBuffer::new();
    buf.latch = 0x42;
    assert_eq!(buf.peek_latch(), 0x42);
    assert_eq!(buf.latch, 0x42);
}

#[test]
fn reset_clears_ring_latch_and_interrupt_flag() {
    let mut buf = InputBuffer::new();
    buf.latch = 0xff;
    buf.ring.put(0x42);
    buf.interrupt_flag = true;
    buf.reset();
    assert_eq!(buf.latch, 0, "reset must clear the latch");
    assert!(buf.ring.is_empty(), "reset must clear the ring");
    assert!(!buf.irq_active(), "reset must clear the interrupt flag");
}
