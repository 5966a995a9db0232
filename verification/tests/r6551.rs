use emma65::device::IoDevice;
use emma65::r6551::{R6551, RX_IRQ_ENABLE, TX_IRQ_ENABLE};
use emma65::transport::TransportPort;

const DEVICE_NAME: &str = "";

fn device() -> R6551 {
    R6551::new(DEVICE_NAME)
}

fn device_with_pipe() -> R6551 {
    let mut device = device();
    device.attach_transport(TransportPort::new(0));
    device
}

fn arrive(device: &mut R6551, byte: u8) {
    device.transport.as_mut().unwrap().inbound.push_back(byte);
}

fn sent(device: &R6551) -> Vec<u8> {
    device.transport.as_ref().unwrap().outbound.clone()
}

// --- Initial state ---

#[test]
fn r6551_new_has_tdre_set() {
    let device = device();
    assert_ne!(device.peek(1) & 0x10, 0);
}

#[test]
fn r6551_new_has_rdrf_clear() {
    let device = device();
    assert_eq!(device.peek(1) & 0x08, 0);
}

// --- Command and Control register read/write ---

#[test]
fn r6551_write_read_command_register() {
    let mut device = device();
    device.write(2, 0x0A);
    assert_eq!(device.read(2), 0x0A);
}

#[test]
fn r6551_write_read_control_register() {
    let mut device = device();
    device.write(3, 0x1E); // 9600 baud, internal clock
    assert_eq!(device.read(3), 0x1E);
}

// --- TX ---

#[test]
fn r6551_tx_sends_byte_to_transport() {
    let mut device = device_with_pipe();
    device.write(0, 0x41);
    assert_eq!(sent(&device), vec![0x41]);
}

#[test]
fn r6551_tx_no_transport_is_silent() {
    let mut device = device();
    device.write(0, 0xFF); // should not panic
}

// --- RX via tick() ---

#[test]
fn rx_byte_deferred_when_dtr_not_asserted() {
    let mut device = device_with_pipe();
    device.write(2, 0x0);   // deassert DTR
    arrive(&mut device, 0xBB);
    device.tick(1); // external clock: poll every tick
    assert_eq!(device.peek(0), 0); // no value read
    assert_eq!(device.peek(1) & 0x08, 0); // RDRF not set
}

#[test]
fn r6551_rx_byte_sets_rdrf() {
    let mut device = device_with_pipe();
    device.write(2, 0x1);   // assert DTR
    arrive(&mut device, 0xBB);
    device.tick(1); // external clock: poll every tick
    assert_ne!(device.peek(1) & 0x08, 0); // RDRF set
}

#[test]
fn r6551_rx_read_data_returns_byte_and_clears_rdrf() {
    let mut device = device_with_pipe();
    device.write(2, 0x1);   // assert DTR
    arrive(&mut device, 0x55);
    device.tick(1);
    assert_eq!(device.read(0), 0x55);
    assert_eq!(device.peek(1) & 0x08, 0); // RDRF cleared
}

#[test]
fn r6551_second_byte_held_in_transport_until_first_read() {
    let mut device = device_with_pipe();
    device.write(2, 0x1);   // assert DTR
    arrive(&mut device, 0x01);
    arrive(&mut device, 0x02);
    device.tick(1); // receives 0x01 → RDRF
    device.tick(1); // 0x02 stays in pipe (RDRF still set)
    assert_eq!(device.read(0), 0x01);
    device.tick(1); // now receives 0x02
    assert_eq!(device.read(0), 0x02);
}

// --- Overrun ---

#[test]
fn overrun_set_in_internal_clock_mode_with_overrun_enabled() {
    let mut device = device()
        .with_clock_hz(1_000_000)
        .with_overrun(true);
    device.attach_transport(TransportPort::new(0));
    // 19200 baud internal clock: cycles_per_byte = 1_000_000 * 10 / 19200 = 520
    device.write(2, 0x1);   // assert DTR
    device.write(3, 0x1F);
    arrive(&mut device, 0x01);
    arrive(&mut device, 0x02);
    device.tick(520); // receives 0x01 → RDRF
    device.tick(520); // receives 0x02 → OVRN (overwrites rx_data)
    assert_ne!(device.peek(1) & 0x04, 0); // OVRN set
    assert_eq!(device.read(0), 0x02); // second byte overwrote first
}

#[test]
fn no_overrun_in_external_clock_mode_even_with_flag() {
    let mut device = device()
        .with_overrun(true);
    device.attach_transport(TransportPort::new(0));
    device.write(2, 0x1);   // assert DTR
    // Control defaults to 0x00 → external clock (cycles_per_byte = 0)
    arrive(&mut device, 0x01);
    arrive(&mut device, 0x02);
    device.tick(1); // receives 0x01 → RDRF
    device.tick(1); // 0x02 stays in pipe (external clock ignores overrun flag)
    assert_eq!(device.peek(1) & 0x04, 0); // OVRN not set
    assert_eq!(device.read(0), 0x01);
    device.tick(1); // now receives 0x02
    assert_eq!(device.read(0), 0x02);
}

// --- Baud rate timing ---

#[test]
fn r6551_baud_rate_setting_controls_poll_timing() {
    let mut device = device_with_pipe();
    device.write(2, 0x1);  // assert DTR
    device.write(3, 0x1F); // 19200 baud, internal receiver clock
    arrive(&mut device, 0x42);

    // One byte period at 19200 baud on a 1 MHz clock: 10/19200 * 1_000_000 = 520 cycles
    device.tick(519);
    assert_eq!(device.peek(1) & 0x08, 0); // not yet

    device.tick(1); // crosses threshold
    assert_ne!(device.peek(1) & 0x08, 0); // RDRF set
}

// --- IRQ ---

#[test]
fn irq_active_on_rdrf_when_rx_irq_enabled_and_dtr_asserted() {
    let mut device = device_with_pipe();
    device.write(2, 0x01); // IRD=0, DTR=1: RX IRQ enabled
    arrive(&mut device, 0x01);
    device.tick(1);
    assert!(device.irq_active());
}

#[test]
fn irq_inactive_when_rx_dtr_not_asserted() {
    let mut device = device_with_pipe();
    device.write(2, 0x2); // IRD=1, DTR=0: RX IRQ disabled
    arrive(&mut device, 0x01);
    device.tick(1);
    assert!(!device.irq_active());
}

#[test]
fn r6551_irq_inactive_when_rx_irq_disabled() {
    let mut device = device_with_pipe();
    device.write(2, 0x3); // IRD=1, DTR=1: RX IRQ disabled
    arrive(&mut device, 0x01);
    device.tick(1);
    assert!(!device.irq_active());
}

#[test]
fn r6551_irq_active_on_tdre_when_tx_irq_enabled() {
    let mut device = device();
    device.write(2, 0x04); // TIC=01: TX IRQ enabled
    assert!(device.irq_active()); // TDRE is always set
}

#[test]
fn r6551_irq_inactive_on_tdre_when_tx_irq_disabled() {
    let mut device = device();
    device.write(2, 0x00); // TIC=00: TX IRQ disabled
    assert!(!device.irq_active());
}

// --- TDRE behaviour ---

#[test]
fn tdre_clears_on_tx_write_in_correct_mode() {
    let mut device = device_with_pipe();
    assert_ne!(device.peek(1) & 0x10, 0); // TDRE set before write
    device.write(0, 0x41);
    assert_eq!(device.peek(1) & 0x10, 0); // TDRE cleared after TX write
}

#[test]
fn tdre_restores_after_tick_in_correct_mode() {
    let mut device = device_with_pipe();
    device.write(0, 0x41); // clears TDRE; external clock sets tx_cycles_remaining = 1
    device.tick(1);
    assert_ne!(device.peek(1) & 0x10, 0); // TDRE restored
}

#[test]
fn tdre_always_set_in_bug_compatible_mode() {
    let mut device = device().with_tdre_bug(true);
    device.attach_transport(TransportPort::new(0));
    device.write(0, 0x41); // TX write — should NOT clear TDRE
    assert_ne!(device.peek(1) & 0x10, 0);
    device.tick(1000); // many ticks — TDRE must stay set
    assert_ne!(device.peek(1) & 0x10, 0);
}

#[test]
fn tdre_restores_after_baud_rate_period_in_correct_mode() {
    let mut device = device_with_pipe();
    device.write(3, 0x1F); // 19200 baud, internal clock → 520 cycles/byte
    device.write(0, 0x41);
    assert_eq!(device.peek(1) & 0x10, 0); // TDRE cleared
    device.tick(519);
    assert_eq!(device.peek(1) & 0x10, 0); // still not restored
    device.tick(1);
    assert_ne!(device.peek(1) & 0x10, 0); // TDRE restored after full period
}

// --- Peek ---

#[test]
fn r6551_peek_does_not_clear_rdrf() {
    let mut device = device_with_pipe();
    device.write(2, 0x1);   // assert DTR
    arrive(&mut device, 0xCC);
    device.tick(1);
    let _ = device.peek(0); // peek at data register
    assert_ne!(device.peek(1) & 0x08, 0); // RDRF still set
}

#[test]
fn r6551_peek_returns_rx_data_without_consuming() {
    let mut device = device_with_pipe();
    device.write(2, 0x1);   // assert DTR
    arrive(&mut device, 0x77);
    device.tick(1);
    assert_eq!(device.peek(0), 0x77);
    assert_eq!(device.read(0), 0x77); // still available
}

// reset

#[test]
fn reset_clears_command_control_and_status_registers() {
    let mut device = device();
    device.rdrf = true;
    device.tdre = true;
    device.reset();
    assert_eq!(device.command, 0, "command register must be zero after reset");
    assert_eq!(device.control, 0, "command register must be zero after reset");
    assert!(device.tdre, "TRDE must be set after reset");
    assert!(!device.rdrf, "RDRF must be clear after reset");
}

#[test]
fn r6551_reset_clears_irq() {
    let mut device = device();
    device.rdrf = true;
    device.tdre = true;
    device.command = RX_IRQ_ENABLE | TX_IRQ_ENABLE;
    assert!(device.irq_active(), "expected IRQ active");
    device.reset();
    assert!(!device.irq_active(), "IRQ must not be active after reset");
}

#[test]
fn reset_preserves_configuration_attributes() {
    let mut device = device()
        .with_clock_hz(1_843_200)
        .with_tdre_bug(true)
        .with_overrun(true);
    device.reset();
    assert_eq!(device.clock_hz, 1_843_200, "clock_hz must be preserved after reset");
    assert!(device.tdre_bug_compatible, "tdre_bug_compatible must be preserved after reset");
    assert!(device.overrun_enabled, "overrun_enabled must be preserved after reset");
}
