use emma65::acia6551::Acia6551;
use emma65::device::IoDevice;
use emma65::transport::TransportPort;

fn device_with_pipe() -> Acia6551 {
    let mut device = Acia6551::new();
    device.attach_transport(TransportPort::new(0));
    device
}

fn arrive(device: &mut Acia6551, byte: u8) {
    device.transport.as_mut().unwrap().inbound.push_back(byte);
}

fn sent(device: &Acia6551) -> Vec<u8> {
    device.transport.as_ref().unwrap().outbound.clone()
}

// --- Initial state ---

#[test]
fn acia6551_new_has_tdre_set() {
    let device = Acia6551::new();
    assert_ne!(device.peek(1) & 0x10, 0);
}

#[test]
fn acia6551_new_has_rdrf_clear() {
    let device = Acia6551::new();
    assert_eq!(device.peek(1) & 0x08, 0);
}

// --- Command and Control register read/write ---

#[test]
fn acia6551_write_read_command_register() {
    let mut device = Acia6551::new();
    device.write(2, 0x0A);
    assert_eq!(device.read(2), 0x0A);
}

#[test]
fn acia6551_write_read_control_register() {
    let mut device = Acia6551::new();
    device.write(3, 0x1E); // 9600 baud, internal clock
    assert_eq!(device.read(3), 0x1E);
}

// --- TX ---

#[test]
fn acia6551_tx_sends_byte_to_transport() {
    let mut device = device_with_pipe();
    device.write(0, 0x41);
    assert_eq!(sent(&device), vec![0x41]);
}

#[test]
fn acia6551_tx_no_transport_is_silent() {
    let mut device = Acia6551::new();
    device.write(0, 0xFF); // should not panic
}

// --- RX via tick() ---

#[test]
fn acia6551_rx_byte_sets_rdrf() {
    let mut device = device_with_pipe();
    arrive(&mut device, 0xBB);
    device.tick(1); // external clock: poll every tick
    assert_ne!(device.peek(1) & 0x08, 0); // RDRF set
}

#[test]
fn acia6551_rx_read_data_returns_byte_and_clears_rdrf() {
    let mut device = device_with_pipe();
    arrive(&mut device, 0x55);
    device.tick(1);
    assert_eq!(device.read(0), 0x55);
    assert_eq!(device.peek(1) & 0x08, 0); // RDRF cleared
}

#[test]
fn overrun_set_when_second_byte_arrives_before_read() {
    let mut device = device_with_pipe();
    arrive(&mut device, 0x01);
    arrive(&mut device, 0x02);
    device.tick(1); // receives 0x01 → RDRF
    device.tick(1); // receives 0x02 → OVRN
    assert_ne!(device.peek(1) & 0x04, 0); // OVRN set
}

#[test]
fn programmed_reset_clears_overrun() {
    let mut device = device_with_pipe();
    arrive(&mut device, 0x01);
    arrive(&mut device, 0x02);
    device.tick(1);
    device.tick(1);
    device.write(1, 0x00); // programmed reset
    assert_eq!(device.peek(1) & 0x04, 0); // OVRN cleared
}

// --- Baud rate timing ---

#[test]
fn acia6551_baud_rate_setting_controls_poll_timing() {
    let mut device = device_with_pipe();
    device.write(3, 0x1F); // 19200 baud, internal receiver clock
    arrive(&mut device, 0x42);

    // One byte period at 19200 baud on a 1 MHz clock: 10/19200 * 1_000_000 = 520 cycles
    device.tick(519);
    assert_eq!(device.peek(1) & 0x08, 0); // not yet

    device.tick(1); // crosses threshold
    assert_ne!(device.peek(1) & 0x08, 0); // RDRF set
}

// --- IRQ ---

#[test]
fn irq_active_on_rdrf_when_rx_irq_enabled() {
    let mut device = device_with_pipe();
    device.write(2, 0x00); // IRD=0: RX IRQ enabled
    arrive(&mut device, 0x01);
    device.tick(1);
    assert!(device.irq_active());
}

#[test]
fn acia6551_irq_inactive_when_rx_irq_disabled() {
    let mut device = device_with_pipe();
    device.write(2, 0x02); // IRD=1: RX IRQ disabled
    arrive(&mut device, 0x01);
    device.tick(1);
    assert!(!device.irq_active());
}

#[test]
fn acia6551_irq_active_on_tdre_when_tx_irq_enabled() {
    let mut device = Acia6551::new();
    device.write(2, 0x04); // TIC=01: TX IRQ enabled
    assert!(device.irq_active()); // TDRE is always set
}

#[test]
fn acia6551_irq_inactive_on_tdre_when_tx_irq_disabled() {
    let mut device = Acia6551::new();
    device.write(2, 0x00); // TIC=00: TX IRQ disabled
    assert!(!device.irq_active());
}

// --- Peek ---

#[test]
fn acia6551_peek_does_not_clear_rdrf() {
    let mut device = device_with_pipe();
    arrive(&mut device, 0xCC);
    device.tick(1);
    let _ = device.peek(0); // peek at data register
    assert_ne!(device.peek(1) & 0x08, 0); // RDRF still set
}

#[test]
fn acia6551_peek_returns_rx_data_without_consuming() {
    let mut device = device_with_pipe();
    arrive(&mut device, 0x77);
    device.tick(1);
    assert_eq!(device.peek(0), 0x77);
    assert_eq!(device.read(0), 0x77); // still available
}
