use emma65::keyboard::Keyboard;
use emma65::device::IoDevice;
use emma65::logging::{LogCategory, LogSender};
use emma65::transport::TransportPort;

const DEVICE_NAME: &str = "keyboard";

fn device() -> Keyboard {
    Keyboard::new(DEVICE_NAME)
}

fn device_with_pipe() -> Keyboard {
    let mut device = device();
    device.attach_transport(TransportPort::new(0));
    device
}

fn arrive(device: &mut Keyboard, byte: u8) {
    device.transport.as_mut().unwrap().inbound.push_back(byte);
}

fn sent(device: &Keyboard) -> Vec<u8> {
    device.transport.as_ref().unwrap().outbound.clone()
}

#[test]
fn read_data_register_delegates_to_input_buffer() {
    let mut device = device();
    device.input.write_latch(0x42);
    assert_eq!(device.read(0), 0x42);
}

#[test]
fn read_latch_register_delegates_to_input_buffer() {
    let mut device = device();
    device.input.push(0x42);
    assert_eq!(device.read(1), 0x42);
}

#[test]
fn write_data_register_is_noop() {
    let mut device = device_with_pipe();
    device.write(0, 0x42);
    assert_eq!(sent(&device), vec![], "expected no outbound byte");
    assert_eq!(device.peek(0), 0, "expected no state change");
}

#[test]
fn write_latch_register_delegates_to_input_buffer() {
    let mut device = device();
    device.write(1, 0x42);
    assert_eq!(device.peek(1), 0x42);
}

#[test]
fn peek_delegates_to_input_buffer_without_side_effects() {
    let mut device = device();
    device.input.push(0x42);
    assert_eq!(device.peek(0), 0x42);
    assert_eq!(device.peek(0), 0x42, "peek must not consume the buffered byte");
}

#[test]
fn tick_buffers_input_from_transport() {
    let mut device = device_with_pipe();
    arrive(&mut device, 0x42);
    device.tick(1);
    assert_eq!(device.peek(0), 0x42);
}

#[test]
fn tick_latches_break_key_and_sets_interrupt_flag() {
    let mut device = device_with_pipe();
    device.set_break_key(0x3);
    arrive(&mut device, 0x3);
    device.tick(1);
    assert_eq!(device.peek(1), 0x3);
    assert!(device.irq_active(), "expected interrupt flag set");
}

#[test]
fn keyboard_reset_logs_device_message() {
    let mut device = device().with_address(0xF000);
    device.set_log_sender(LogSender::with_capacity(4));
    device.reset();
    let received = &device.log_sender.records[0];
    assert_eq!(received.category, LogCategory::Device);
    assert_eq!(received.message, format!("{DEVICE_NAME}@0xf000 reset"));
}
