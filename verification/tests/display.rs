use emma65::address::AddressRange;
use emma65::device::IoDevice;
use emma65::display::compositing::Rgb24;
use emma65::display::font::{Font, FONT_BYTES};
use emma65::display::{CharDisplay, CONTROL_PALETTE_ARM, CONTROL_SWAP_ON_VSYNC, CONTROL_SWAP_PENDING, CONTROL_SWAP_REQUEST, DEFAULT_FRAME_RATE_HZ, NOMINAL_CLOCK_HZ, STATUS_PALETTE_ACCEPTED, STATUS_VSYNC};
use emma65::logging::{LogCategory, LogSender};
use emma65::transport::TransportPort;
use tokio::sync::mpsc;

const DEVICE_NAME: &str = "display";
const COLUMNS: u32 = 4;
const ROWS: u32 = 2;
const CELLS: u32 = COLUMNS * ROWS;
const BASE_ADDRESS: u16 = 0xD000;

fn address_range() -> AddressRange {
    AddressRange::new(BASE_ADDRESS, BASE_ADDRESS + (2 * CELLS + 2 - 1) as u16)
}

fn device(double_buffered: bool) -> CharDisplay {
    CharDisplay::new(
        DEVICE_NAME,
        address_range(),
        COLUMNS,
        ROWS,
        double_buffered,
        Some(1_000_000),
        100,
        Font::default(),
        palette(),
    )
}

/// Sixteen colors, of which the first is black.
fn palette() -> Vec<Rgb24> {
    (0..16u8).map(|i| Rgb24::new(i * 17, i * 11, i * 5)).collect()
}

fn char_ram_addr(offset: u16) -> u16 {
    BASE_ADDRESS + offset
}

fn color_ram_addr(offset: u16) -> u16 {
    BASE_ADDRESS + CELLS as u16 + offset
}

fn control_addr() -> u16 {
    BASE_ADDRESS + (2 * CELLS) as u16
}

fn status_addr() -> u16 {
    BASE_ADDRESS + (2 * CELLS) as u16 + 1
}

#[test]
fn char_ram_read_write_round_trip() {
    let mut device = device(true);
    device.write(char_ram_addr(0), 0x41);
    device.write(char_ram_addr(CELLS as u16 - 1), 0x42);
    assert_eq!(device.read(char_ram_addr(0)), 0x41);
    assert_eq!(device.read(char_ram_addr(CELLS as u16 - 1)), 0x42);
    assert_eq!(device.peek(char_ram_addr(0)), 0x41);
}

#[test]
fn color_ram_read_write_round_trip() {
    let mut device = device(true);
    device.write(color_ram_addr(0), 0x05);
    device.write(color_ram_addr(CELLS as u16 - 1), 0x0F);
    assert_eq!(device.read(color_ram_addr(0)), 0x05);
    assert_eq!(device.read(color_ram_addr(CELLS as u16 - 1)), 0x0F);
    assert_eq!(device.peek(color_ram_addr(0)), 0x05);
}

#[test]
fn mod_claims_only_within_configured_range() {
    let device = device(true);
    assert!(device.claims(BASE_ADDRESS));
    assert!(device.claims(status_addr()));
    assert!(!device.claims(BASE_ADDRESS - 1));
    assert!(!device.claims(status_addr() + 1));
}

#[test]
fn mod_identity_address_and_name() {
    let device = device(true);
    assert_eq!(device.identity_address(), BASE_ADDRESS);
    assert_eq!(device.name(), DEVICE_NAME);
}

#[test]
fn swap_immediate_when_swap_on_vsync_disabled() {
    let mut device = device(true);
    device.write(char_ram_addr(0), 0x41);
    // Before any swap, frame_source (scanout) must not reflect the CPU write yet.
    assert_eq!(device.frame_source().0[0], 0);
    device.write(control_addr(), CONTROL_SWAP_REQUEST);
    assert_eq!(device.frame_source().0[0], 0x41);
    // Swap pending bit must not be set for an immediate swap.
    assert_eq!(device.read(control_addr()) & CONTROL_SWAP_PENDING, 0);
}

#[test]
fn swap_deferred_until_vsync_when_swap_on_vsync_enabled() {
    let mut device = device(true);
    device.write(control_addr(), CONTROL_SWAP_ON_VSYNC);
    device.write(char_ram_addr(0), 0x41);
    device.write(control_addr(), CONTROL_SWAP_ON_VSYNC | CONTROL_SWAP_REQUEST);
    // Swap must be deferred: scanout unaffected, pending bit set.
    assert_eq!(device.frame_source().0[0], 0);
    assert_ne!(device.read(control_addr()) & CONTROL_SWAP_PENDING, 0);
    // Drive vsync: cycles_per_frame = 1_000_000 / 100 = 10_000.
    device.tick(10_000);
    assert_eq!(device.frame_source().0[0], 0x41);
    assert_eq!(device.read(control_addr()) & CONTROL_SWAP_PENDING, 0);
    assert_ne!(device.read(status_addr()) & STATUS_VSYNC, 0);
}

#[test]
fn second_swap_request_while_pending_is_idempotent() {
    let mut device = device(true);
    device.write(control_addr(), CONTROL_SWAP_ON_VSYNC | CONTROL_SWAP_REQUEST);
    device.write(control_addr(), CONTROL_SWAP_ON_VSYNC | CONTROL_SWAP_REQUEST);
    assert_ne!(device.read(control_addr()) & CONTROL_SWAP_PENDING, 0);
    device.tick(10_000);
    // A single deferred swap should have been performed, not queued twice; the pending
    // bit is clear and a further tick with no new request changes nothing.
    assert_eq!(device.read(control_addr()) & CONTROL_SWAP_PENDING, 0);
}

#[test]
fn single_buffered_mode_swap_is_a_no_op() {
    let mut device = device(false);
    device.write(char_ram_addr(0), 0x41);
    // frame_source reads directly from the CPU-addressable buffer; no swap needed.
    assert_eq!(device.frame_source().0[0], 0x41);
    device.write(control_addr(), CONTROL_SWAP_REQUEST);
    assert_eq!(device.frame_source().0[0], 0x41);
    assert_eq!(device.read(control_addr()) & CONTROL_SWAP_PENDING, 0);
}

#[test]
fn status_register_is_read_to_clear() {
    let mut device = device(true);
    device.tick(10_000);
    assert_ne!(device.peek(status_addr()) & STATUS_VSYNC, 0);
    assert_ne!(device.read(status_addr()) & STATUS_VSYNC, 0);
    assert_eq!(device.read(status_addr()), 0);
    assert_eq!(device.peek(status_addr()), 0);
}

#[test]
fn status_register_writes_are_ignored() {
    let mut device = device(true);
    device.write(status_addr(), 0xFF);
    assert_eq!(device.peek(status_addr()), 0);
}

#[test]
fn full_palette_sequence_applies_color_and_sets_accepted_status() {
    let mut device = device(true);
    device.write(control_addr(), CONTROL_PALETTE_ARM);
    device.write(status_addr(), 2); // index
    device.write(status_addr(), 10); // red
    device.write(status_addr(), 20); // green
    device.write(status_addr(), 30); // blue

    assert_eq!(device.palette()[2], Rgb24::new(10, 20, 30));
    assert_ne!(device.peek(status_addr()) & STATUS_PALETTE_ACCEPTED, 0);
    assert_eq!(device.read(status_addr()) & STATUS_PALETTE_ACCEPTED, STATUS_PALETTE_ACCEPTED);
    assert_eq!(device.peek(status_addr()) & STATUS_PALETTE_ACCEPTED, 0, "read-to-clear");
}

#[test]
fn palette_update_out_of_range_index_wraps_via_modulo() {
    let mut device = device(true);
    assert_eq!(device.palette().len(), 16);
    device.write(control_addr(), CONTROL_PALETTE_ARM);
    device.write(status_addr(), 200); // 200 % 16 == 8
    device.write(status_addr(), 1);
    device.write(status_addr(), 2);
    device.write(status_addr(), 3);

    assert_eq!(device.palette()[8], Rgb24::new(1, 2, 3));
}

#[test]
fn palette_data_writes_are_ignored_when_not_armed() {
    let mut device = device(true);
    let original = device.palette().to_vec();
    device.write(status_addr(), 0);
    device.write(status_addr(), 10);
    device.write(status_addr(), 20);
    device.write(status_addr(), 30);

    assert_eq!(device.palette(), original.as_slice());
    assert_eq!(device.peek(status_addr()) & STATUS_PALETTE_ACCEPTED, 0);
}

#[test]
fn rearming_mid_sequence_discards_partial_sequence_and_starts_fresh() {
    let mut device = device(true);
    device.write(control_addr(), CONTROL_PALETTE_ARM);
    device.write(status_addr(), 0); // index (would-be first sequence)
    device.write(status_addr(), 0xFF); // red (would-be first sequence, discarded)

    device.write(control_addr(), CONTROL_PALETTE_ARM); // re-arm resets to ExpectIndex
    device.write(status_addr(), 3); // index
    device.write(status_addr(), 11);
    device.write(status_addr(), 22);
    device.write(status_addr(), 33);

    assert_eq!(device.palette()[3], Rgb24::new(11, 22, 33));
    assert_eq!(device.palette()[0], Rgb24::new(0, 0, 0), "first slot untouched by discarded sequence");
}

#[test]
fn unrelated_control_write_without_arm_bit_does_not_disturb_in_progress_sequence() {
    let mut device = device(true);
    device.write(control_addr(), CONTROL_PALETTE_ARM);
    device.write(status_addr(), 5); // index
    device.write(status_addr(), 11); // red

    // A plain swap request, with bit 3 clear, does not disarm the in-progress sequence --
    // there is no way to disarm it short of re-arming or completing it.
    device.write(control_addr(), CONTROL_SWAP_REQUEST);
    device.write(status_addr(), 22); // green
    device.write(status_addr(), 33); // blue

    assert_eq!(device.palette()[5], Rgb24::new(11, 22, 33));
}

#[test]
fn reset_clears_in_progress_palette_update_state() {
    let mut device = device(true);
    let original = device.palette().to_vec();
    device.write(control_addr(), CONTROL_PALETTE_ARM);
    device.write(status_addr(), 0); // index
    device.write(status_addr(), 0xFF); // red

    device.reset();
    // Resuming with the remaining bytes of the pre-reset sequence must not spuriously
    // apply a color built from a mix of pre- and post-reset bytes.
    device.write(status_addr(), 1);
    device.write(status_addr(), 2);

    assert_eq!(device.palette(), original.as_slice());
}

#[test]
fn vsync_cadence_derived_from_clock_and_frame_rate() {
    let mut device = device(true);
    // cycles_per_frame = 1_000_000 / 100 = 10_000; one cycle short must not fire vsync yet.
    device.tick(9_999);
    assert_eq!(device.peek(status_addr()) & STATUS_VSYNC, 0);
    device.tick(1);
    assert_ne!(device.peek(status_addr()) & STATUS_VSYNC, 0);
}

#[test]
fn mod_nominal_clock_used_when_clock_hz_unavailable() {
    let mut device = CharDisplay::new(
        DEVICE_NAME,
        address_range(),
        COLUMNS,
        ROWS,
        true,
        None,
        DEFAULT_FRAME_RATE_HZ,
        Font::default(),
        palette(),
    );
    let cycles_per_frame = NOMINAL_CLOCK_HZ / DEFAULT_FRAME_RATE_HZ as u64;
    device.tick(cycles_per_frame as u32 - 1);
    assert_eq!(device.peek(status_addr()) & STATUS_VSYNC, 0);
    device.tick(1);
    assert_ne!(device.peek(status_addr()) & STATUS_VSYNC, 0);
}

#[test]
fn reset_clears_control_and_status_but_preserves_ram() {
    let mut device = device(true);
    device.write(char_ram_addr(0), 0x41);
    device.write(control_addr(), CONTROL_SWAP_ON_VSYNC | CONTROL_SWAP_REQUEST);
    device.tick(10_000);
    device.tick(10_000);
    device.reset();
    assert_eq!(device.peek(control_addr()), 0);
    assert_eq!(device.peek(status_addr()), 0);
    assert_eq!(device.peek(char_ram_addr(0)), 0x41);
}

#[test]
fn mod_reset_logs_device_message() {
    let mut device = device(true);
    device.set_log_sender(LogSender::with_capacity(4));
    device.reset();
    let received = &device.log_sender.records[0];
    assert_eq!(received.category, LogCategory::Device);
    assert_eq!(received.message, format!("{DEVICE_NAME}@0x{BASE_ADDRESS:04x} reset"));
}

#[test]
fn font_and_palette_accessors_reflect_constructor_arguments() {
    let font = Font::default();
    let palette = vec![Rgb24::new(1, 2, 3), Rgb24::new(4, 5, 6)];
    let device = CharDisplay::new(
        DEVICE_NAME,
        address_range(),
        COLUMNS,
        ROWS,
        true,
        Some(1_000_000),
        100,
        font.clone(),
        palette.clone(),
    );
    assert_eq!(device.font(), &font);
    assert_eq!(device.palette(), palette.as_slice());
}

#[test]
fn vsync_pushes_a_composited_frame_to_an_attached_sink() {
    let mut device = device(true);
    let (tx, mut rx) = mpsc::channel(1);
    device.attach_frame_sink(tx);
    device.write(char_ram_addr(0), 0x41);
    device.write(color_ram_addr(0), 1);
    device.tick(10_000); // one vsync at this device's cycles_per_frame (1_000_000 / 100)

    let frame = rx.try_recv().expect("expected a composited frame after vsync");
    assert_eq!(frame.columns, COLUMNS);
    assert_eq!(frame.rows, ROWS);
    assert_eq!(frame.pixels.len(), (COLUMNS * 8 * ROWS * 8 * 4) as usize);
}

#[test]
fn vsync_with_no_attached_sink_still_sets_the_status_flag() {
    let mut device = device(true);
    device.tick(10_000);
    assert_ne!(device.peek(status_addr()) & STATUS_VSYNC, 0);
}

#[test]
fn mod_shutdown_drops_the_frame_sink_closing_the_channel() {
    let mut device = device(true);
    let (tx, mut rx) = mpsc::channel(1);
    device.attach_frame_sink(tx);
    device.shutdown();
    device.tick(10_000);
    assert!(rx.try_recv().is_err(), "channel should be closed once the sink is dropped");
}

fn device_with_external_transport(double_buffered: bool) -> CharDisplay {
    let mut device = device(double_buffered);
    device.attach_external_transport(TransportPort::new(0));
    device
}

/// Takes what the device has sent over its external transport.
fn collect_bytes(device: &mut CharDisplay) -> Vec<u8> {
    std::mem::take(&mut device.external_transport.as_mut().unwrap().outbound)
}

#[test]
fn mod_attach_external_transport_sends_header_immediately() {
    let mut device = device_with_external_transport(true);
    let bytes = collect_bytes(&mut device);

    assert_eq!(&bytes[0..4], b"E65D");
    assert_eq!(bytes[4], 1); // version
    assert_eq!(&bytes[5..9], &COLUMNS.to_le_bytes());
    assert_eq!(&bytes[9..13], &ROWS.to_le_bytes());
    assert_eq!(&bytes[13..17], &100u32.to_le_bytes()); // frame_rate_hz from device()
    assert_eq!(&bytes[17..19], &16u16.to_le_bytes()); // default_palette() length
    assert_eq!(bytes.len(), 19 + FONT_BYTES);
}

#[test]
fn vsync_sends_one_frame_over_external_transport() {
    let mut device = device_with_external_transport(true);
    collect_bytes(&mut device); // drain the header

    device.write(char_ram_addr(0), 0x41);
    device.write(color_ram_addr(0), 1);
    device.write(control_addr(), CONTROL_SWAP_REQUEST);
    device.tick(10_000); // one vsync at this device's cycles_per_frame

    let frame = collect_bytes(&mut device);
    let expected_len = 2 * CELLS as usize + palette().len() * 3;
    assert_eq!(frame.len(), expected_len);
    assert_eq!(frame[0], 0x41); // char RAM cell 0
    assert_eq!(frame[CELLS as usize], 1); // color RAM cell 0
}

#[test]
fn mod_shutdown_stops_further_sends_over_external_transport() {
    let mut device = device_with_external_transport(true);
    collect_bytes(&mut device); // drain the header

    device.shutdown();
    device.tick(10_000); // one vsync -- must not send after shutdown

    assert!(collect_bytes(&mut device).is_empty());
}

/// The keyboard relay must be drained
/// unconditionally every `tick()`, even with no keyboard range configured -- otherwise the
/// first byte a peripheral ever writes to its own stdout kills the *entire* transport, frames
/// included, because an undrained relay's channel closing is treated as a broken pipe.
#[test]
fn tick_drains_keyboard_relay_even_without_keyboard_range_configured() {
    let mut device = device_with_external_transport(true);
    collect_bytes(&mut device); // drain the header

    device.external_transport.as_mut().unwrap().inbound.push_back(0x42);
    device.tick(10_000); // must not tear down the transport merely because this arrived

    let frame = collect_bytes(&mut device);
    assert!(!frame.is_empty(), "expected the transport to remain alive and still send a frame");
}

// -- Keyboard sub-range --

const KEYBOARD_BASE: u16 = 0xE000;

fn keyboard_range() -> AddressRange {
    AddressRange::new(KEYBOARD_BASE, KEYBOARD_BASE + 1)
}

fn keyboard_data_addr() -> u16 {
    KEYBOARD_BASE
}

fn keyboard_latch_addr() -> u16 {
    KEYBOARD_BASE + 1
}

fn device_with_keyboard(double_buffered: bool) -> CharDisplay {
    device(double_buffered).with_keyboard_range(keyboard_range())
}

fn device_with_keyboard_pipe() -> CharDisplay {
    let mut device = device_with_keyboard(true);
    device.attach_keyboard_transport(TransportPort::new(0));
    device
}

fn arrive(device: &mut CharDisplay, byte: u8) {
    device.keyboard_transport.as_mut().unwrap().inbound.push_back(byte);
}

#[test]
fn keyboard_read_data_register_delegates_to_input_buffer() {
    let mut device = device_with_keyboard(true);
    device.write(keyboard_latch_addr(), 0x42);
    assert_eq!(device.read(keyboard_data_addr()), 0x42);
}

#[test]
fn keyboard_read_latch_register_delegates_to_input_buffer() {
    let mut device = device_with_keyboard(true);
    device.keyboard.as_mut().unwrap().input.push(0x42);
    assert_eq!(device.read(keyboard_latch_addr()), 0x42);
}

#[test]
fn keyboard_write_data_register_is_noop() {
    let mut device = device_with_keyboard_pipe();
    device.write(keyboard_data_addr(), 0x42);
    assert_eq!(
        device.keyboard_transport.as_ref().unwrap().outbound,
        vec![],
        "expected no outbound byte"
    );
    assert_eq!(device.peek(keyboard_data_addr()), 0, "expected no state change");
}

#[test]
fn keyboard_write_latch_register_delegates_to_input_buffer() {
    let mut device = device_with_keyboard(true);
    device.write(keyboard_latch_addr(), 0x42);
    assert_eq!(device.peek(keyboard_latch_addr()), 0x42);
}

#[test]
fn keyboard_peek_delegates_to_input_buffer_without_side_effects() {
    let mut device = device_with_keyboard(true);
    device.keyboard.as_mut().unwrap().input.push(0x42);
    assert_eq!(device.peek(keyboard_data_addr()), 0x42);
    assert_eq!(device.peek(keyboard_data_addr()), 0x42, "peek must not consume the buffered byte");
}

#[test]
fn keyboard_tick_buffers_input_from_transport() {
    let mut device = device_with_keyboard_pipe();
    arrive(&mut device, 0x42);
    device.tick(1);
    assert_eq!(device.peek(keyboard_data_addr()), 0x42);
}

#[test]
fn keyboard_tick_latches_break_key_and_sets_interrupt_flag() {
    let mut device = device_with_keyboard_pipe();
    device.set_break_key(0x3);
    arrive(&mut device, 0x3);
    device.tick(1);
    assert_eq!(device.peek(keyboard_latch_addr()), 0x3);
    assert!(device.irq_active(), "expected interrupt flag set");
}

#[test]
fn set_break_key_is_a_noop_without_a_keyboard_range() {
    // Must not panic when no keyboard range is configured.
    let mut device = device(true);
    device.set_break_key(0x3);
    assert!(!device.irq_active());
}

#[test]
fn keyboard_reset_clears_buffered_input() {
    let mut device = device_with_keyboard(true);
    device.keyboard.as_mut().unwrap().input.push(0x42);
    device.reset();
    assert_eq!(device.peek(keyboard_data_addr()), 0, "reset must clear buffered keyboard input");
}

#[test]
fn claims_covers_both_framebuffer_and_keyboard_ranges() {
    let device = device_with_keyboard(true);
    assert!(device.claims(BASE_ADDRESS));
    assert!(device.claims(keyboard_data_addr()));
    assert!(device.claims(keyboard_latch_addr()));
    assert!(!device.claims(keyboard_latch_addr() + 1));
}

#[test]
fn keyboard_range_below_framebuffer_base_does_not_underflow() {
    // The keyboard range's early check must run before the framebuffer offset arithmetic --
    // otherwise a keyboard address below the framebuffer's base underflows that subtraction.
    let low_range = AddressRange::new(0x0010, 0x0011);
    let mut device = device(true).with_keyboard_range(low_range);
    device.write(0x0011, 0x42);
    assert_eq!(device.read(0x0011), 0x42);
}

#[test]
fn no_irq_capability_without_a_keyboard_range() {
    let device = device(true);
    assert!(!device.irq_active());
}
