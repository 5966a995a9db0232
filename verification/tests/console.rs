use emma65::console::Console;
use emma65::device::IoDevice;
use emma65::logging::{LogCategory, LogSender};
use emma65::transport::TransportPort;

const DEVICE_NAME: &str = "console";

fn device() -> Console {
    Console::new(DEVICE_NAME)
}

fn device_with_pipe() -> Console {
    let mut device = device();
    device.attach_transport(TransportPort::new(0));
    device
}

fn arrive(device: &mut Console, byte: u8) {
    device.transport.as_mut().unwrap().inbound.push_back(byte);
}

fn sent(device: &Console) -> Vec<u8> {
    device.transport.as_ref().unwrap().outbound.clone()
}

#[test]
fn console_read_data_register_delegates_to_input_buffer() {
    let mut device = device();
    device.write(1, 0x42);
    assert_eq!(device.read(0), 0x42);
}

#[test]
fn console_read_latch_register_delegates_to_input_buffer() {
    let mut device = device();
    device.input.push(0x42);
    assert_eq!(device.read(1), 0x42);
}

#[test]
fn write_data_register_sends_byte_to_transport() {
    let mut device = device_with_pipe();
    device.write(0, 0x42);
    assert_eq!(sent(&device), vec![0x42]);
}

#[test]
fn console_write_latch_register_delegates_to_input_buffer() {
    let mut device = device();
    device.write(1, 0x42);
    assert_eq!(device.peek(1), 0x42);
}

#[test]
fn write_break_key_to_latch_register_sets_interrupt_flag() {
    let mut device = device();
    device.set_break_key(0x3);
    device.write(1, 0x3);
    assert_eq!(device.peek(1), 0x3);
    assert!(device.irq_active(), "expected interrupt flag set");
}

#[test]
fn console_peek_delegates_to_input_buffer_without_side_effects() {
    let mut device = device();
    device.input.push(0x42);
    assert_eq!(device.peek(0), 0x42);
    assert_eq!(device.peek(0), 0x42, "peek must not consume the buffered byte");
}

#[test]
fn console_tick_buffers_input_from_transport() {
    let mut device = device_with_pipe();
    arrive(&mut device, 0x42);
    device.tick(1);
    assert_eq!(device.peek(0), 0x42);
}

#[test]
fn console_tick_latches_break_key_and_sets_interrupt_flag() {
    let mut device = device_with_pipe();
    device.set_break_key(0x3);
    arrive(&mut device, 0x3);
    device.tick(1);
    assert_eq!(device.peek(1), 0x3);
    assert!(device.irq_active(), "expected interrupt flag set");
}

#[test]
fn reset_clears_latch() {
    let mut console = device();
    console.write(1, 0xff);
    console.reset();
    assert_eq!(console.peek(1), 0, "reset must clear the latch");
}

#[test]
fn console_reset_logs_device_message() {
    let mut console = device().with_address(0xF000);
    console.set_log_sender(LogSender::with_capacity(4));
    console.reset();
    let received = &console.log_sender.records[0];
    assert_eq!(received.category, LogCategory::Device);
    assert_eq!(received.message, format!("{DEVICE_NAME}@0xf000 reset"));
}
