use emma65::device::IoDevice;
use emma65::logging::{LogCategory, LogSender};
use emma65::mc6850::{Mc6850, RIE_MASK, TC_TX_IRQ};
use emma65::transport::TransportPort;

const DEVICE_NAME: &str = "mc6850";

fn device() -> Mc6850 {
    Mc6850::new(DEVICE_NAME)
}

fn device_with_pipe() -> Mc6850 {
    let mut device = device();
    device.attach_transport(TransportPort::new(0));
    device
}

fn arrive(device: &mut Mc6850, byte: u8) {
    device.transport.as_mut().unwrap().inbound.push_back(byte);
}

fn sent(device: &Mc6850) -> Vec<u8> {
    device.transport.as_ref().unwrap().outbound.clone()
}

// --- Initial state ---

#[test]
fn mc6850_new_has_tdre_set() {
    let device = device();
    assert_ne!(device.peek(0) & 0x02, 0);
}

#[test]
fn mc6850_new_has_rdrf_clear() {
    let device = device();
    assert_eq!(device.peek(0) & 0x01, 0);
}

// --- Control register ---

#[test]
fn write_control_register_stores_value() {
    let mut device = device();
    device.write(0, 0x56); // WS + TC bits, CD=10 (not master reset)
    assert_eq!(device.control, 0x56);
}

#[test]
fn master_reset_clears_rdrf() {
    let mut device = device_with_pipe();
    arrive(&mut device, 0xAA);
    device.tick(1); // RDRF
    assert_ne!(device.peek(0) & 0x01, 0); // RDRF set
    device.write(0, 0x03); // master reset
    assert_eq!(device.peek(0) & 0x01, 0); // RDRF cleared
}

#[test]
fn master_reset_keeps_tdre_set() {
    let mut device = device();
    device.write(0, 0x03); // master reset
    assert_ne!(device.peek(0) & 0x02, 0);
}

// --- TX ---

#[test]
fn mc6850_tx_sends_byte_to_transport() {
    let mut device = device_with_pipe();
    device.write(1, 0x58);
    assert_eq!(sent(&device), vec![0x58]);
}

#[test]
fn mc6850_tx_no_transport_is_silent() {
    let mut device = device();
    device.write(1, 0xFF); // should not panic
}

#[test]
fn tdre_clears_on_tx_write() {
    let mut device = device_with_pipe();
    assert_ne!(device.peek(0) & 0x02, 0); // TDRE set before write
    device.write(1, 0x41);
    assert_eq!(device.peek(0) & 0x02, 0); // TDRE cleared after TX write
}

#[test]
fn tdre_restores_after_tick() {
    let mut device = device_with_pipe();
    device.write(1, 0x41);
    assert_eq!(device.peek(0) & 0x02, 0); // TDRE cleared
    device.tick(1);
    assert_ne!(device.peek(0) & 0x02, 0); // TDRE restored
}

// --- RX ---

#[test]
fn mc6850_rx_byte_sets_rdrf() {
    let mut device = device_with_pipe();
    arrive(&mut device, 0xBB);
    device.tick(1);
    assert_ne!(device.peek(0) & 0x01, 0); // RDRF set
}

#[test]
fn rx_read_returns_byte_and_clears_rdrf() {
    let mut device = device_with_pipe();
    arrive(&mut device, 0x44);
    device.tick(1);
    assert_eq!(device.read(1), 0x44);
    assert_eq!(device.peek(0) & 0x01, 0); // RDRF cleared
}

#[test]
fn mc6850_second_byte_held_in_transport_until_first_read() {
    let mut device = device_with_pipe();
    arrive(&mut device, 0x01);
    arrive(&mut device, 0x02);
    device.tick(1); // receives 0x01 → RDRF
    device.tick(1); // 0x02 stays in the internal rx buffer (RDRF still set)
    assert_eq!(device.read(1), 0x01);
    device.tick(1); // now receives 0x02
    assert_eq!(device.read(1), 0x02);
}

// --- IRQ ---

#[test]
fn irq_on_rdrf_when_rx_irq_enabled() {
    let mut device = device_with_pipe();
    device.write(0, 0x81); // RIE=1, CD=01
    arrive(&mut device, 0x01);
    device.tick(1);
    assert!(device.irq_active());
}

#[test]
fn no_irq_on_rdrf_when_rx_irq_disabled() {
    let mut device = device_with_pipe();
    device.write(0, 0x01); // RIE=0, CD=01
    arrive(&mut device, 0x01);
    device.tick(1);
    assert!(!device.irq_active());
}

#[test]
fn irq_on_tdre_when_tx_irq_enabled() {
    let mut device = device();
    device.write(0, 0x41); // TC=10 (TX IRQ enabled), CD=01
    assert!(device.irq_active()); // TDRE is always set
}

#[test]
fn no_irq_on_tdre_when_tx_irq_disabled() {
    let mut device = device();
    device.write(0, 0x01); // TC=00, CD=01
    assert!(!device.irq_active());
}

// --- Peek ---

#[test]
fn mc6850_peek_does_not_clear_rdrf() {
    let mut device = device_with_pipe();
    arrive(&mut device, 0x99);
    device.tick(1);
    let _ = device.peek(1);
    assert_ne!(device.peek(0) & 0x01, 0); // RDRF still set
}

#[test]
fn mc6850_peek_returns_rx_data_without_consuming() {
    let mut device = device_with_pipe();
    arrive(&mut device, 0x33);
    device.tick(1);
    assert_eq!(device.peek(1), 0x33);
    assert_eq!(device.read(1), 0x33); // still available
}

// reset

#[test]
fn mc6850_reset_clears_irq() {
    let mut device = device();
    device.rdrf = true;
    device.tdre = true;
    device.control = RIE_MASK | TC_TX_IRQ;
    assert!(device.irq_active(), "expected IRQ active");
    device.reset();
    assert!(!device.irq_active(), "IRQ must not be active after reset");
}

#[test]
fn reset_clears_control_and_status_registers_and_pending_irq() {
    let mut device = device();
    device.rdrf = true;
    device.tdre = true;
    device.reset();
    assert!(device.tdre, "TRDE must be set after reset");
    assert!(!device.rdrf, "RDRF must be clear after reset");
}

#[test]
fn mc6850_reset_logs_device_message() {
    let mut device = device().with_address(0xC000);
    device.set_log_sender(LogSender::with_capacity(4));
    device.reset();
    let received = &device.log_sender.records[0];
    assert_eq!(received.category, LogCategory::Device);
    assert_eq!(received.message, format!("{DEVICE_NAME}@0xc000 reset"));
}
