use emma65::address::AddressRange;
use emma65::device::IoDevice;
use emma65::display::{DEFAULT_FRAME_RATE_HZ, NOMINAL_CLOCK_HZ};
use emma65::led_matrix::compositing::Rgb565;
use emma65::led_matrix::{
    LedMatrix, CMD_PALETTE_READ, CMD_PALETTE_WRITE, CMD_SET_AUTOREFRESH, CMD_SET_BRIGHTNESS,
    CMD_SET_POWER, CMD_SWAP, PALETTE_LEN, PIXELS_PER_MATRIX,
};
use emma65::logging::{LogCategory, LogSender};
use emma65::transport::TransportPort;
use tokio::sync::mpsc;

const DEVICE_NAME: &str = "led_matrix";
const BASE_ADDRESS: u16 = 0xD000;
// Deliberately far from BASE_ADDRESS, mirroring how a real config keeps the register pair out
// of the K-aligned pixel region.
const REGISTER_ADDRESS: u16 = 0xE000;

fn test_palette() -> Vec<Rgb565> {
    (0..PALETTE_LEN)
        .map(|i| Rgb565::new((i % 32) as u8, (i % 64) as u8, ((i * 7) % 32) as u8))
        .collect()
}

fn pixel_range(matrices: u32) -> AddressRange {
    let size = matrices as usize * PIXELS_PER_MATRIX;
    AddressRange::new(BASE_ADDRESS, BASE_ADDRESS + (size as u16 - 1))
}

fn register_range() -> AddressRange {
    AddressRange::new(REGISTER_ADDRESS, REGISTER_ADDRESS + 1)
}

fn device(matrices: u32) -> LedMatrix {
    // A single column (matrices stacked vertically) is the
    // one-matrix-per-1024-contiguous-bytes layout exactly, and is the simplest arrangement
    // for tests that don't care about layout.
    device_with_arrangement(matrices, 1)
}

/// Builds a device with an explicit arrangement column count, for tests exercising
/// arrangement-aware addressing.
fn device_with_arrangement(matrices: u32, cols: u32) -> LedMatrix {
    LedMatrix::new(DEVICE_NAME, pixel_range(matrices), register_range(), matrices, cols, Some(1_000_000), 100, test_palette())
}

fn pixel_addr(offset: u16) -> u16 {
    BASE_ADDRESS + offset
}

fn command_addr() -> u16 {
    REGISTER_ADDRESS
}

fn data_addr() -> u16 {
    command_addr() + 1
}

fn write_palette_write(device: &mut LedMatrix, index: u8, r: u8, g: u8, b: u8) {
    device.write(command_addr(), CMD_PALETTE_WRITE);
    device.write(data_addr(), index);
    device.write(data_addr(), r);
    device.write(data_addr(), g);
    device.write(data_addr(), b);
}

#[test]
fn pixel_memory_read_write_round_trip() {
    let mut device = device(2);
    device.write(pixel_addr(0), 0x41);
    device.write(pixel_addr(PIXELS_PER_MATRIX as u16 - 1), 0x42);
    device.write(pixel_addr(2 * PIXELS_PER_MATRIX as u16 - 1), 0x43);
    assert_eq!(device.read(pixel_addr(0)), 0x41);
    assert_eq!(device.read(pixel_addr(PIXELS_PER_MATRIX as u16 - 1)), 0x42);
    assert_eq!(device.read(pixel_addr(2 * PIXELS_PER_MATRIX as u16 - 1)), 0x43);
    assert_eq!(device.peek(pixel_addr(0)), 0x41);
}

#[test]
fn wide_arrangement_addresses_second_matrix_at_its_column_offset() {
    // 2x1: a 64x32 composed canvas. Matrix 1 sits at columns 32-63, row 0, so its local (0,0)
    // is raster offset 0*64 + 32 = 32.
    let mut device = device_with_arrangement(2, 2);
    device.write(command_addr(), CMD_SWAP);
    device.write(data_addr(), 0b11); // clear the construction-time dirty default

    device.write(pixel_addr(32), 0x41);

    assert_eq!(device.dirty, 0b10, "offset 32 must belong to matrix 1, not matrix 0");
    assert_eq!(device.read(pixel_addr(32)), 0x41);
}

#[test]
fn tall_arrangement_addresses_second_matrix_at_its_row_offset() {
    // 1x2: a 32x64 composed canvas. Matrix 1 sits at rows 32-63, column 0, so its local (0,0)
    // is raster offset 32*32 + 0 = 1024 --
    // this arrangement happens to coincide with simple concatenation.
    let mut device = device_with_arrangement(2, 1);
    device.write(command_addr(), CMD_SWAP);
    device.write(data_addr(), 0b11);

    device.write(pixel_addr(PIXELS_PER_MATRIX as u16), 0x41);

    assert_eq!(device.dirty, 0b10, "offset 1024 must belong to matrix 1");
    assert_eq!(device.read(pixel_addr(PIXELS_PER_MATRIX as u16)), 0x41);
}

#[test]
fn swap_gathers_each_matrix_correctly_in_a_multi_column_arrangement() {
    // 2x2: four matrices in a 64x64 composed canvas. Each matrix's rows are interleaved with
    // its row-mates' in the raster, so this exercises the strided gather in `swap_matrix`/
    // `frame_source` rather than a contiguous-slice copy.
    let mut device = device_with_arrangement(4, 2);
    let width = 64usize;
    for (matrix_row, matrix_col, value) in [(0usize, 0usize, 0x11u8), (0, 1, 0x22), (1, 0, 0x33), (1, 1, 0x44)] {
        let offset = (matrix_row * 32) * width + matrix_col * 32; // that matrix's local (0,0)
        device.write(pixel_addr(offset as u16), value);
    }

    device.write(command_addr(), CMD_SWAP);
    device.write(data_addr(), 0b1111);

    assert_eq!(device.frame_source(0)[0], 0x11);
    assert_eq!(device.frame_source(1)[0], 0x22);
    assert_eq!(device.frame_source(2)[0], 0x33);
    assert_eq!(device.frame_source(3)[0], 0x44);
}

#[test]
fn single_column_arrangement_is_unaffected_default_behavior() {
    // The default (a single column, matrices stacked vertically) must be the
    // one-matrix-per-1024-contiguous-bytes layout exactly.
    let mut device = device(2);
    device.write(pixel_addr(0), 0x41);
    device.write(pixel_addr(PIXELS_PER_MATRIX as u16), 0x55);

    device.write(command_addr(), CMD_SWAP);
    device.write(data_addr(), 0b11);

    assert_eq!(device.frame_source(0)[0], 0x41);
    assert_eq!(device.frame_source(1)[0], 0x55);
}

#[test]
fn claims_only_within_configured_range() {
    let device = device(1);
    assert!(device.claims(BASE_ADDRESS));
    assert!(device.claims(BASE_ADDRESS + PIXELS_PER_MATRIX as u16 - 1));
    assert!(device.claims(command_addr()));
    assert!(device.claims(data_addr()));
    assert!(!device.claims(BASE_ADDRESS - 1));
    assert!(!device.claims(BASE_ADDRESS + PIXELS_PER_MATRIX as u16),
        "the gap between pixel memory and the separately configured register pair must not be claimed");
    assert!(!device.claims(data_addr() + 1));
}

#[test]
fn identity_address_and_name() {
    let device = device(1);
    assert_eq!(device.identity_address(), BASE_ADDRESS);
    assert_eq!(device.name(), DEVICE_NAME);
}

#[test]
fn command_register_always_reads_zero() {
    let mut device = device(1);
    device.write(command_addr(), CMD_PALETTE_WRITE);
    assert_eq!(device.read(command_addr()), 0);
    assert_eq!(device.peek(command_addr()), 0);
}

#[test]
fn writing_pixel_marks_only_that_matrix_dirty() {
    let mut device = device(2);
    // Clear the construction-time all-dirty default first.
    device.write(command_addr(), CMD_SWAP);
    device.write(data_addr(), 0b11);
    assert_eq!(device.dirty, 0);

    device.write(pixel_addr(0), 0x41); // matrix 0
    assert_eq!(device.dirty, 0b01);
}

#[test]
fn writing_pixel_marks_dirty_even_when_value_unchanged() {
    let mut device = device(1);
    device.write(command_addr(), CMD_SWAP);
    device.write(data_addr(), 0b1);
    assert_eq!(device.dirty, 0);

    device.write(pixel_addr(0), 0); // already 0, still marks dirty
    assert_eq!(device.dirty, 0b1);
}

#[test]
fn cmd_swap_copies_requested_matrices_unconditionally_and_clears_their_dirty_bits() {
    let mut device = device(2);
    device.write(pixel_addr(0), 0x41);
    device.write(pixel_addr(PIXELS_PER_MATRIX as u16), 0x55); // matrix 1
    assert_eq!(device.frame_source(0)[0], 0);
    assert_eq!(device.frame_source(1)[0], 0);

    device.write(command_addr(), CMD_SWAP);
    device.write(data_addr(), 0b11);

    assert_eq!(device.frame_source(0)[0], 0x41);
    assert_eq!(device.frame_source(1)[0], 0x55);
    assert_eq!(device.dirty, 0);
}

#[test]
fn cmd_swap_only_affects_requested_matrices() {
    let mut device = device(2);
    device.write(pixel_addr(0), 0x41);
    device.write(pixel_addr(PIXELS_PER_MATRIX as u16), 0x55);

    device.write(command_addr(), CMD_SWAP);
    device.write(data_addr(), 0b01); // only matrix 0

    assert_eq!(device.frame_source(0)[0], 0x41);
    assert_eq!(device.frame_source(1)[0], 0, "matrix 1 must not have been swapped");
    assert_eq!(device.dirty, 0b10, "matrix 1's dirty bit must remain set");
}

#[test]
fn cmd_swap_re_copies_even_when_matrix_is_already_clean() {
    let mut device = device(1);
    // Clear the construction-time dirty default first, without changing pixel content.
    device.write(command_addr(), CMD_SWAP);
    device.write(data_addr(), 0b1);
    assert_eq!(device.dirty, 0);

    // Requesting a swap of an already-clean matrix must still copy pixel memory into scanout
    // CMD_SWAP ignores dirty state entirely).
    device.write(pixel_addr(0), 0x99);
    device.write(command_addr(), CMD_SWAP);
    device.write(data_addr(), 0b1);
    assert_eq!(device.frame_source(0)[0], 0x99);
    assert_eq!(device.dirty, 0);
}

#[test]
fn dirty_defaults_to_all_matrices_at_construction() {
    let device = device(4);
    assert_eq!(device.dirty, 0b1111);
}

#[test]
fn autorefresh_mask_defaults_to_all_matrices_at_construction() {
    let device = device(4);
    assert_eq!(device.autorefresh_mask, 0b1111);
}

#[test]
fn power_mask_defaults_to_all_matrices_at_construction() {
    let device = device(4);
    assert_eq!(device.power_mask, 0b1111);
}

#[test]
fn eight_matrices_fills_masks_completely() {
    let device = device(8);
    assert_eq!(device.dirty, 0xFF);
    assert_eq!(device.autorefresh_mask, 0xFF);
    assert_eq!(device.power_mask, 0xFF);
}

#[test]
fn cmd_set_autorefresh_replaces_mask_wholesale() {
    let mut device = device(4);
    device.write(command_addr(), CMD_SET_AUTOREFRESH);
    device.write(data_addr(), 0b0101);
    assert_eq!(device.autorefresh_mask, 0b0101);
}

#[test]
fn cmd_set_power_replaces_mask_wholesale() {
    let mut device = device(4);
    device.write(command_addr(), CMD_SET_POWER);
    device.write(data_addr(), 0b0010);
    assert_eq!(device.power_mask, 0b0010);
}

#[test]
fn cmd_set_brightness_sets_global_level() {
    let mut device = device(1);
    device.write(command_addr(), CMD_SET_BRIGHTNESS);
    device.write(data_addr(), 0x7F);
    assert_eq!(device.brightness, 0x7F);
}

#[test]
fn auto_refresh_only_swaps_matrices_that_are_enabled_and_dirty() {
    let mut device = device(2);
    // Clear the construction-time dirty default first.
    device.write(command_addr(), CMD_SWAP);
    device.write(data_addr(), 0b11);

    // Disable auto-refresh for matrix 1.
    device.write(command_addr(), CMD_SET_AUTOREFRESH);
    device.write(data_addr(), 0b01);

    device.write(pixel_addr(0), 0x41); // matrix 0: enabled + dirty
    device.write(pixel_addr(PIXELS_PER_MATRIX as u16), 0x55); // matrix 1: dirty but disabled

    device.tick(10_000); // one cadence tick (cycles_per_frame = 1_000_000 / 100)

    assert_eq!(device.frame_source(0)[0], 0x41, "enabled + dirty matrix must be swapped");
    assert_eq!(device.frame_source(1)[0], 0, "disabled matrix must not be swapped despite being dirty");
    assert_eq!(device.dirty, 0b10, "matrix 1 must remain dirty");
}

#[test]
fn auto_refresh_does_not_swap_a_clean_matrix() {
    let mut device = device(1);
    device.write(command_addr(), CMD_SWAP);
    device.write(data_addr(), 0b1); // clear the construction-time dirty default

    device.tick(10_000);
    assert_eq!(device.dirty, 0, "no write occurred since the swap, so nothing should be dirty");
    assert_eq!(device.frame_source(0)[0], 0);
}

#[test]
fn auto_refresh_cadence_derived_from_clock_and_frame_rate() {
    let mut device = device(1);
    device.write(pixel_addr(0), 0x41);
    // cycles_per_frame = 1_000_000 / 100 = 10_000; one cycle short must not fire yet.
    device.tick(9_999);
    assert_eq!(device.frame_source(0)[0], 0);
    device.tick(1);
    assert_eq!(device.frame_source(0)[0], 0x41);
}

#[test]
fn nominal_clock_used_when_clock_hz_unavailable() {
    let mut device = LedMatrix::new(DEVICE_NAME, pixel_range(1), register_range(), 1, 1, None, DEFAULT_FRAME_RATE_HZ, test_palette());
    let cycles_per_frame = NOMINAL_CLOCK_HZ / DEFAULT_FRAME_RATE_HZ as u64;
    device.write(pixel_addr(0), 0x41);
    device.tick(cycles_per_frame as u32 - 1);
    assert_eq!(device.frame_source(0)[0], 0);
    device.tick(1);
    assert_eq!(device.frame_source(0)[0], 0x41);
}

#[test]
fn palette_write_masks_components_to_rgb565() {
    let mut device = device(1);
    write_palette_write(&mut device, 2, 10, 20, 30);
    // masked down to native bit width, then read back scaled -- not guaranteed
    // to equal the written bytes exactly.
    assert_eq!(device.palette()[2], Rgb565::from_rgb888(10, 20, 30));
}

#[test]
fn palette_read_returns_scaled_channel_bytes_in_order() {
    let mut device = device(1);
    write_palette_write(&mut device, 5, 0xFF, 0x00, 0xFF);

    device.write(command_addr(), CMD_PALETTE_READ);
    device.write(data_addr(), 5); // index

    assert_eq!(device.read(data_addr()), 0xFF); // red
    assert_eq!(device.read(data_addr()), 0x00); // green
    assert_eq!(device.read(data_addr()), 0xFF); // blue
    assert_eq!(device.read(data_addr()), 0, "past the 3-byte sequence, reads return 0");
}

#[test]
fn palette_read_round_trip_may_change_the_original_byte() {
    let mut device = device(1);
    write_palette_write(&mut device, 7, 0x0F, 0x0F, 0x0F);

    device.write(command_addr(), CMD_PALETTE_READ);
    device.write(data_addr(), 7);

    let red = device.read(data_addr());
    assert_ne!(red, 0x0F, " round trip is not guaranteed exact");
}

#[test]
fn palette_read_zero_and_max_round_trip_exactly() {
    let mut device = device(1);
    write_palette_write(&mut device, 9, 0x00, 0x00, 0x00);
    device.write(command_addr(), CMD_PALETTE_READ);
    device.write(data_addr(), 9);
    assert_eq!((device.read(data_addr()), device.read(data_addr()), device.read(data_addr())), (0, 0, 0));

    write_palette_write(&mut device, 9, 0xFF, 0xFF, 0xFF);
    device.write(command_addr(), CMD_PALETTE_READ);
    device.write(data_addr(), 9);
    assert_eq!((device.read(data_addr()), device.read(data_addr()), device.read(data_addr())), (0xFF, 0xFF, 0xFF));
}

#[test]
fn reissuing_command_mid_sequence_discards_partial_sequence() {
    let mut device = device(1);
    device.write(command_addr(), CMD_PALETTE_WRITE);
    device.write(data_addr(), 3); // index
    device.write(data_addr(), 0xFF); // red (would-be first sequence, discarded)

    device.write(command_addr(), CMD_PALETTE_WRITE); // re-issue resets to expect index
    device.write(data_addr(), 3);
    device.write(data_addr(), 11);
    device.write(data_addr(), 22);
    device.write(data_addr(), 33);

    assert_eq!(device.palette()[3], Rgb565::from_rgb888(11, 22, 33));
}

#[test]
fn data_register_writes_ignored_when_no_command_armed() {
    let mut device = device(1);
    let original = device.palette().to_vec();
    device.write(data_addr(), 10);
    device.write(data_addr(), 20);
    assert_eq!(device.palette(), original.as_slice());
}

#[test]
fn data_register_write_ignored_while_a_read_sequence_is_armed() {
    let mut device = device(1);
    write_palette_write(&mut device, 1, 1, 2, 3);
    device.write(command_addr(), CMD_PALETTE_READ);
    device.write(data_addr(), 1);

    device.write(data_addr(), 0xAA); // must not disturb the in-progress read sequence
    assert_eq!(device.read(data_addr()), device.palette()[1].to_rgb888().0);
}

#[test]
fn peek_data_does_not_advance_the_read_sequence() {
    let mut device = device(1);
    write_palette_write(&mut device, 1, 1, 2, 3);
    device.write(command_addr(), CMD_PALETTE_READ);
    device.write(data_addr(), 1);

    let expected = device.palette()[1].to_rgb888().0;
    assert_eq!(device.peek(data_addr()), expected);
    assert_eq!(device.peek(data_addr()), expected, "peek must not consume the byte");
    assert_eq!(device.read(data_addr()), expected, "read still returns the same first byte");
}

#[test]
fn reset_restores_default_masks_and_clears_pending_sequence() {
    let mut device = device(4);
    device.write(command_addr(), CMD_SWAP);
    device.write(data_addr(), 0b1111);
    device.write(command_addr(), CMD_SET_AUTOREFRESH);
    device.write(data_addr(), 0b0001);
    device.write(command_addr(), CMD_SET_POWER);
    device.write(data_addr(), 0b0001);
    device.write(command_addr(), CMD_PALETTE_WRITE);
    device.write(data_addr(), 1); // mid-sequence

    device.reset();

    assert_eq!(device.dirty, 0b1111);
    assert_eq!(device.autorefresh_mask, 0b1111);
    assert_eq!(device.power_mask, 0b1111);
    // The mid-sequence palette write must have been discarded: completing it with fresh
    // bytes must not apply a color built from a mix of pre- and post-reset bytes.
    let original = device.palette()[1];
    device.write(data_addr(), 1);
    device.write(data_addr(), 2);
    device.write(data_addr(), 3);
    assert_eq!(device.palette()[1], original, "data-only writes with nothing armed are ignored");
}

#[test]
fn reset_preserves_pixel_memory() {
    let mut device = device(1);
    device.write(pixel_addr(0), 0x41);
    device.reset();
    assert_eq!(device.peek(pixel_addr(0)), 0x41);
}

#[test]
fn reset_logs_device_message() {
    let mut device = device(1);
    device.set_log_sender(LogSender::with_capacity(4));
    device.reset();
    let received = &device.log_sender.records[0];
    assert_eq!(received.category, LogCategory::Device);
    assert_eq!(received.message, format!("{DEVICE_NAME}@0x{BASE_ADDRESS:04x} reset"));
}

#[test]
fn no_irq_capability() {
    let device = device(1);
    assert!(!device.irq_active());
}

#[test]
fn cmd_swap_pushes_a_composited_frame_for_each_requested_matrix() {
    let mut device = device(2);
    let (tx, mut rx) = mpsc::channel(4);
    device.attach_frame_sink(tx);
    device.write(pixel_addr(0), 1);
    device.write(pixel_addr(PIXELS_PER_MATRIX as u16), 1);

    device.write(command_addr(), CMD_SWAP);
    device.write(data_addr(), 0b11);

    let first = rx.try_recv().expect("expected a frame for matrix 0");
    assert_eq!(first.matrix_index, 0);
    assert_eq!(first.pixels.len(), PIXELS_PER_MATRIX * 4);
    let second = rx.try_recv().expect("expected a frame for matrix 1");
    assert_eq!(second.matrix_index, 1);
    assert!(rx.try_recv().is_err(), "no further frames expected");
}

#[test]
fn auto_refresh_pushes_a_composited_frame_for_the_swapped_matrix() {
    let mut device = device(1);
    let (tx, mut rx) = mpsc::channel(4);
    // Clear the construction-time dirty default first, without a sink attached, so the only
    // frame this test observes is the one auto-refresh pushes below.
    device.write(command_addr(), CMD_SWAP);
    device.write(data_addr(), 0b1);
    device.attach_frame_sink(tx);

    device.write(pixel_addr(0), 0x41);
    device.tick(10_000); // one cadence tick (cycles_per_frame = 1_000_000 / 100)

    let frame = rx.try_recv().expect("expected a frame pushed by auto-refresh");
    assert_eq!(frame.matrix_index, 0);
}

#[test]
fn shutdown_drops_the_frame_sink_closing_the_channel() {
    let mut device = device(1);
    let (tx, mut rx) = mpsc::channel(4);
    device.attach_frame_sink(tx);
    device.shutdown();
    device.write(command_addr(), CMD_SWAP);
    device.write(data_addr(), 0b1);
    assert!(rx.try_recv().is_err(), "channel should be closed once the sink is dropped");
}

/// A channel sized to the matrix count never drops a frame from a single full-mask swap.
#[test]
fn cmd_swap_of_all_8_matrices_delivers_every_frame_when_the_sink_is_sized_for_8() {
    let mut device = device(8);
    let (tx, mut rx) = mpsc::channel(8);
    device.attach_frame_sink(tx);
    for m in 0..8u16 {
        device.write(pixel_addr(m * PIXELS_PER_MATRIX as u16), 1);
    }
    device.write(command_addr(), CMD_SWAP);
    device.write(data_addr(), 0xFF);

    let mut received = vec![];
    while let Ok(f) = rx.try_recv() {
        received.push(f.matrix_index);
    }
    assert_eq!(received, (0..8).collect::<Vec<u8>>(), "expected a frame for every matrix, in order");
}

// -- External transport --

fn device_with_external_transport(matrices: u32) -> LedMatrix {
    let mut device = device(matrices);
    device.attach_external_transport(TransportPort::new(0));
    device
}

/// Takes what the device has sent over its external transport.
fn collect_bytes(device: &mut LedMatrix) -> Vec<u8> {
    std::mem::take(&mut device.external_transport.as_mut().unwrap().outbound)
}

#[test]
fn attach_external_transport_sends_header_immediately() {
    let mut device = device_with_external_transport(4);
    let bytes = collect_bytes(&mut device);

    assert_eq!(&bytes[0..4], b"E65M");
    assert_eq!(bytes[4], 2); // version
    assert_eq!(bytes[5], 4); // matrix_count
    assert_eq!(bytes[6], 1); // columns, from device()'s single-column arrangement
    assert_eq!(&bytes[7..11], &100u32.to_le_bytes()); // frame_rate_hz from device()
    assert_eq!(bytes.len(), 11);
}

#[test]
fn cmd_swap_sends_a_block_message_per_requested_matrix_over_external_transport() {
    let mut device = device_with_external_transport(2);
    collect_bytes(&mut device); // drain the header

    device.write(pixel_addr(0), 0x41);
    device.write(pixel_addr(PIXELS_PER_MATRIX as u16), 0x55);
    device.write(command_addr(), CMD_SWAP);
    device.write(data_addr(), 0b11);

    let bytes = collect_bytes(&mut device);
    let msg_len = 1 + 1 + PIXELS_PER_MATRIX;
    assert_eq!(bytes.len(), msg_len * 2, "expected one block message per swapped matrix");

    assert_eq!(bytes[0], 1); // MSG_BLOCK
    assert_eq!(bytes[1], 0); // matrix_index 0
    assert_eq!(bytes[2], 0x41);

    let second = &bytes[msg_len..];
    assert_eq!(second[0], 1); // MSG_BLOCK
    assert_eq!(second[1], 1); // matrix_index 1
    assert_eq!(second[2], 0x55);
}

#[test]
fn auto_refresh_sends_a_block_message_over_external_transport() {
    let mut device = device_with_external_transport(1);
    // Clear the construction-time dirty default first, so the only block message this test
    // observes is the one auto-refresh sends below.
    device.write(command_addr(), CMD_SWAP);
    device.write(data_addr(), 0b1);
    collect_bytes(&mut device); // drain the header and the clearing swap's own block message

    device.write(pixel_addr(0), 0x41);
    device.tick(10_000); // one cadence tick (cycles_per_frame = 1_000_000 / 100)

    let bytes = collect_bytes(&mut device);
    assert_eq!(bytes[0], 1); // MSG_BLOCK
    assert_eq!(bytes[1], 0); // matrix_index
    assert_eq!(bytes[2], 0x41);
}

#[test]
fn palette_write_sends_a_palette_message_over_external_transport() {
    let mut device = device_with_external_transport(1);
    collect_bytes(&mut device); // drain the header

    write_palette_write(&mut device, 9, 0xFF, 0x00, 0xFF);

    let bytes = collect_bytes(&mut device);
    assert_eq!(bytes.len(), 4);
    assert_eq!(bytes[0], 2); // MSG_PALETTE
    assert_eq!(bytes[1], 9); // index
    assert_eq!(&bytes[2..4], &device.palette()[9].to_packed565().to_le_bytes());
}

#[test]
fn palette_read_sends_no_message_over_external_transport() {
    let mut device = device_with_external_transport(1);
    write_palette_write(&mut device, 1, 1, 2, 3);
    collect_bytes(&mut device); // drain the header and the write's own palette message

    device.write(command_addr(), CMD_PALETTE_READ);
    device.write(data_addr(), 1);
    device.read(data_addr());

    assert!(collect_bytes(&mut device).is_empty(), "a read-only sequence must send nothing");
}

#[test]
fn set_power_sends_a_power_message_over_external_transport() {
    let mut device = device_with_external_transport(1);
    collect_bytes(&mut device); // drain the header

    device.write(command_addr(), CMD_SET_POWER);
    device.write(data_addr(), 0b0110);

    let bytes = collect_bytes(&mut device);
    assert_eq!(bytes, vec![3, 0b0110]); // MSG_POWER, mask
}

#[test]
fn set_brightness_sends_a_brightness_message_over_external_transport() {
    let mut device = device_with_external_transport(1);
    collect_bytes(&mut device); // drain the header

    device.write(command_addr(), CMD_SET_BRIGHTNESS);
    device.write(data_addr(), 0x7F);

    let bytes = collect_bytes(&mut device);
    assert_eq!(bytes, vec![4, 0x7F]); // MSG_BRIGHTNESS, level
}

#[test]
fn shutdown_stops_further_sends_over_external_transport() {
    let mut device = device_with_external_transport(1);
    collect_bytes(&mut device); // drain the header

    device.shutdown();
    device.write(pixel_addr(0), 0x41);
    device.write(command_addr(), CMD_SWAP);
    device.write(data_addr(), 0b1);

    assert!(collect_bytes(&mut device).is_empty());
}
