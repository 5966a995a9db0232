use emma65::address::AddressRange;
use emma65::device::IoDevice;
use emma65::led_adapter::{
    LedMatrix,
    COMMAND_BLIT,
    COMMAND_BLIT_ALL,
    COMMAND_FILL,
    COMMAND_FILL_ALL,
    HEIGHT_IN_PIXELS,
    IFR_BLIT,
    IFR_FILL,
    IFR_IRQ,
    IFR_MASK,
    IFR_READY,
    WIDTH_IN_PIXELS,
};
use emma65::logging::{LogCategory, LogSender};
use emma65::transport::{TransportEvent, TransportPort};

const DEVICE_NAME: &str = "LedMatrixDisplay";
const DEVICE_ADDRESS: u16 = 0xD000;
/// Client tag used for every simulated peripheral connection in these tests.
const TAG: u8 = 1;

fn device() -> LedMatrix {
    LedMatrix::new(DEVICE_NAME, AddressRange::new(DEVICE_ADDRESS, DEVICE_ADDRESS + 7))
}

fn device_with_pipe() -> LedMatrix {
    let mut device = device();
    device.attach_transport(TransportPort::new(0));
    device
}

fn send_event(device: &mut LedMatrix, event: TransportEvent) {
    device.transport.as_mut().unwrap().inbound.push_back(event);
}

/// Takes what the device has sent.
fn collect_bytes(device: &mut LedMatrix) -> Vec<u8> {
    std::mem::take(&mut device.transport.as_mut().unwrap().outbound)
}

#[test]
fn write_ifr_to_clear_bits() {
    let mut device = device();
    device.ifr = IFR_IRQ | IFR_READY | IFR_BLIT | IFR_FILL;
    device.write_ifr(IFR_READY);
    assert_eq!(device.ifr, IFR_IRQ | IFR_BLIT | IFR_FILL);
    device.write_ifr(IFR_BLIT);
    assert_eq!(device.ifr, IFR_IRQ | IFR_FILL);
    device.write_ifr(IFR_FILL);
    assert_eq!(device.ifr, 0);
}

#[test]
fn write_ier_to_set_bits() {
    let mut device = device();
    device.write_ier(IFR_IRQ | IFR_READY);
    assert_eq!(device.ier, IFR_READY);
    device.write_ier(IFR_IRQ | IFR_BLIT);
    assert_eq!(device.ier, IFR_READY | IFR_BLIT);
    device.write_ier(IFR_IRQ | IFR_FILL);
    assert_eq!(device.ier, IFR_READY | IFR_BLIT | IFR_FILL);
    // no other bits can be set
    device.write_ifr(!IFR_MASK);
    assert_eq!(device.ier, IFR_READY | IFR_BLIT | IFR_FILL);
}

#[test]
fn write_ier_to_clear_bits() {
    let mut device = device();
    device.ier = IFR_READY | IFR_BLIT | IFR_FILL;
    device.write_ier(IFR_READY);
    assert_eq!(device.ier, IFR_BLIT | IFR_FILL);
    device.write_ier(IFR_BLIT);
    assert_eq!(device.ier, IFR_FILL);
    device.write_ier(IFR_FILL);
    assert_eq!(device.ier, 0);
}

#[test]
fn poll_transport_on_connected() {
    let mut device = device_with_pipe();
    device.x = 1;
    device.y = 2;
    device.width = 3;
    device.height = 4;
    device.color = 5;
    device.ifr = 6;
    device.ier = 7;
    device.cmd_data = 8;
    send_event(&mut device, TransportEvent::Connected(TAG));
    device.poll_transport();
    assert_eq!(device.connection_tag, Some(TAG));
    assert_eq!(collect_bytes(&mut device), vec![
        0, 1, 1, 2, 2, 3, 3, 4, 4, 5, 5, 6, 6, 7, 7, 8,
    ]);
}

#[test]
fn poll_transport_after_connected_observes_expected_tag() {
    let mut device = device_with_pipe();
    device.connection_tag = Some(TAG);
    send_event(&mut device, TransportEvent::Data(TAG, IFR_READY));
    send_event(&mut device, TransportEvent::Data(TAG, IFR_BLIT));
    send_event(&mut device, TransportEvent::Data(TAG, 0));
    send_event(&mut device, TransportEvent::Data(TAG, !IFR_MASK));
    device.poll_transport();
    assert_eq!(device.ifr, IFR_IRQ | IFR_READY | IFR_BLIT);
    device.poll_transport();
    assert_eq!(device.ifr, IFR_IRQ | IFR_READY | IFR_BLIT);
}

#[test]
fn poll_transport_after_connected_ignores_other_tag() {
    let mut device = device_with_pipe();
    device.ifr = 0;
    device.connection_tag = Some(2);
    send_event(&mut device, TransportEvent::Data(TAG, IFR_READY));
    device.poll_transport();
    assert_eq!(device.ifr, 0);
}

#[test]
fn poll_transport_clears_connection_tag_on_disconnect_for_same_tag() {
    let mut device = device_with_pipe();
    device.connection_tag = Some(TAG);
    send_event(&mut device, TransportEvent::Disconnected(TAG));
    device.poll_transport();
    assert_eq!(device.connection_tag, None);
}

#[test]
fn poll_transport_ignores_disconnect_for_other_tag() {
    let mut device = device_with_pipe();
    device.connection_tag = Some(2);
    send_event(&mut device, TransportEvent::Disconnected(TAG));
    device.poll_transport();
    assert_eq!(device.connection_tag, Some(2));
}

#[test]
fn send_register() {
    let mut device = device_with_pipe();
    device.send_register(0x55, 0xAA);
    assert_eq!(collect_bytes(&mut device), vec![0x55, 0xAA]);
}

#[test]
fn read_registers() {
    let mut device = device();
    device.x = 1;
    device.y = 2;
    device.width = 3;
    device.height = 4;
    device.color = 5;
    device.ifr = 6;
    device.ier = 7;
    device.cmd_data = 8;
    assert_eq!(device.read(DEVICE_ADDRESS), 1);
    assert_eq!(device.read(DEVICE_ADDRESS + 1), 2);
    assert_eq!(device.read(DEVICE_ADDRESS + 2), 3);
    assert_eq!(device.read(DEVICE_ADDRESS + 3), 4);
    assert_eq!(device.read(DEVICE_ADDRESS + 4), 5);
    assert_eq!(device.read(DEVICE_ADDRESS + 5), 6);
    // IER bit 7 should always read as 1
    assert_eq!(device.read(DEVICE_ADDRESS + 6), IFR_IRQ | 7);
    assert_eq!(device.read(DEVICE_ADDRESS + 7), 8);
}

#[test]
fn write_registers_parameters() {
    let mut device = device_with_pipe();
    // writing X should clamp to display width in pixels less one
    device.write(DEVICE_ADDRESS, 0xFF);
    assert_eq!(device.x, (WIDTH_IN_PIXELS - 1) as u8);
    assert_eq!(collect_bytes(&mut device), vec![0, device.x]);
    // writing Y should clamp to display height in pixels less one
    device.write(DEVICE_ADDRESS + 1, 0xFF);
    assert_eq!(device.y, (HEIGHT_IN_PIXELS - 1) as u8);
    assert_eq!(collect_bytes(&mut device), vec![1, device.y]);
    // writing WIDTH should clamp to display width in pixels less one
    device.write(DEVICE_ADDRESS + 2, 0xFF);
    assert_eq!(device.width, (WIDTH_IN_PIXELS - 1) as u8);
    assert_eq!(collect_bytes(&mut device), vec![2, device.width]);
    // writing HEIGHT should clamp to display height in pixels
    device.write(DEVICE_ADDRESS + 3, 0xFF);
    assert_eq!(device.height, (HEIGHT_IN_PIXELS - 1) as u8);
    assert_eq!(collect_bytes(&mut device), vec![3, device.height]);
    // writing COLOR should transfer value written
    device.write(DEVICE_ADDRESS + 4, 0xFF);
    assert_eq!(collect_bytes(&mut device), vec![4, device.color]);
}

#[test]
fn write_ifr_register() {
    let mut device = device_with_pipe();
    // Here we're just confirming that the address targets the IFR.
    // See `write_ifr_to_clear_bits` for the more comprehensive test.
    device.ifr = IFR_IRQ | IFR_READY;
    device.write(DEVICE_ADDRESS + 5, IFR_READY);
    assert_eq!(device.ifr, 0);
    assert_eq!(collect_bytes(&mut device), vec![5, device.ifr]);
}

#[test]
fn write_ier_register() {
    let mut device = device_with_pipe();
    // Here we're just confirming that the address targets the IFR.
    // See `write_ier_to_set_bits` and `write_ier_to_clear_bits` as the more comprehensive tests.
    device.ier = IFR_READY;
    device.write(DEVICE_ADDRESS + 6, IFR_READY);
    assert_eq!(device.ier, 0);
    assert_eq!(collect_bytes(&mut device), vec![6, device.ier]);
}

#[test]
fn write_cmd_data_register() {
    let mut device = device_with_pipe();
    // Here we're just confirming that the address targets the IFR.
    // See `write_ier_to_set_bits` and `write_ier_to_clear_bits` as the more comprehensive tests.
    device.ifr = IFR_IRQ | IFR_READY;
    device.write(DEVICE_ADDRESS + 7, 0x55);
    assert_eq!(device.cmd_data, 0x55);
    assert_eq!(device.ifr, 0);
    assert_eq!(collect_bytes(&mut device), vec![7, device.cmd_data]);
}

#[test]
fn write_command_blit_clears_ifr_blit_and_sets_expected_bytes() {
    let mut device = device();
    device.width = (WIDTH_IN_PIXELS - 1) as u8;
    device.height = (HEIGHT_IN_PIXELS - 1) as u8;
    device.ifr = IFR_BLIT;
    device.write(DEVICE_ADDRESS + 7, COMMAND_BLIT);
    assert_eq!(device.ifr, 0);
    assert_eq!(device.blit_bytes_remaining, (WIDTH_IN_PIXELS - 1) * (HEIGHT_IN_PIXELS - 1))
}

#[test]
fn write_command_blit_all_clears_ifr_blit_and_sets_expected_bytes() {
    let mut device = device();
    device.ifr = IFR_BLIT;
    device.write(DEVICE_ADDRESS + 7, COMMAND_BLIT_ALL);
    assert_eq!(device.ifr, 0);
    assert_eq!(device.blit_bytes_remaining, WIDTH_IN_PIXELS * HEIGHT_IN_PIXELS);
}

#[test]
fn write_command_fill_clears_ifr_fill() {
    let mut device = device();
    device.ifr = IFR_FILL;
    device.write(DEVICE_ADDRESS + 7, COMMAND_FILL);
    assert_eq!(device.ifr, 0);
}

#[test]
fn write_command_fill_all_clears_ifr_fill() {
    let mut device = device();
    device.ifr = IFR_FILL;
    device.write(DEVICE_ADDRESS + 7, COMMAND_FILL_ALL);
    assert_eq!(device.ifr, 0);
}

#[test]
fn peek_registers() {
    let mut device = device();
    device.x = 1;
    device.y = 2;
    device.width = 3;
    device.height = 4;
    device.color = 5;
    device.ifr = 6;
    device.ier = 7;
    device.cmd_data = 8;
    assert_eq!(device.peek(DEVICE_ADDRESS), 1);
    assert_eq!(device.peek(DEVICE_ADDRESS + 1), 2);
    assert_eq!(device.peek(DEVICE_ADDRESS + 2), 3);
    assert_eq!(device.peek(DEVICE_ADDRESS + 3), 4);
    assert_eq!(device.peek(DEVICE_ADDRESS + 4), 5);
    assert_eq!(device.peek(DEVICE_ADDRESS + 5), 6);
    // IER bit 7 should always read as 1
    assert_eq!(device.peek(DEVICE_ADDRESS + 6), IFR_IRQ | 7);
    assert_eq!(device.peek(DEVICE_ADDRESS + 7), 8);
}

#[test]
fn irq_active() {
    let mut device = device();
    device.ier = IFR_MASK;
    device.ifr = 0;
    assert!(!device.irq_active());
    device.ifr = IFR_READY;
    assert!(device.irq_active());
    device.ifr = IFR_BLIT;
    assert!(device.irq_active());
    device.ifr = IFR_FILL;
    assert!(device.irq_active());
}

#[test]
fn led_matrix_reset_logs_device_message() {
    let mut device = device();
    device.set_log_sender(LogSender::with_capacity(4));
    device.reset();
    let received = &device.log_sender.records[0];
    assert_eq!(received.category, LogCategory::Device);
    assert_eq!(received.message, format!("{DEVICE_NAME} @0x{DEVICE_ADDRESS:04x} reset"));
}
