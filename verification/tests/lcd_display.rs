use emma65::address::AddressRange;
use emma65::device::IoDevice;
use emma65::display::compositing::Rgb24;
use emma65::lcd_display::cgrom::CgRom;
use emma65::lcd_display::{Geometry, LcdDisplay, NibbleState};
use emma65::logging::{LogCategory, LogSender};
use tokio::sync::mpsc;

const DEVICE_NAME: &str = "lcd_display";
const BASE_ADDRESS: u16 = 0xD000;

const DUAL_LINE_GEOMETRY: Geometry =
    Geometry { rows: 2, columns: 16, segments: &[&[(0x00, 16)], &[(0x40, 16)]] };
const SINGLE_LINE_GEOMETRY: Geometry =
    Geometry { rows: 1, columns: 40, segments: &[&[(0x00, 40)]] };

fn address_range() -> AddressRange {
    AddressRange::new(BASE_ADDRESS, BASE_ADDRESS + 1)
}

fn device() -> LcdDisplay {
    LcdDisplay::new(DEVICE_NAME, address_range(), &DUAL_LINE_GEOMETRY, Some(1_000_000),
        CgRom::default(), Rgb24::new(0, 0, 0), Rgb24::new(255, 255, 255))
}

fn single_line_device() -> LcdDisplay {
    LcdDisplay::new(DEVICE_NAME, address_range(), &SINGLE_LINE_GEOMETRY, Some(1_000_000),
        CgRom::default(), Rgb24::new(0, 0, 0), Rgb24::new(255, 255, 255))
}

fn instruction_addr() -> u16 {
    BASE_ADDRESS
}

fn data_addr() -> u16 {
    BASE_ADDRESS + 1
}

/// Ticks past whatever busy period is currently in effect (short or long), at the 1 MHz
/// clock every test device is constructed with.
fn tick_past_busy(device: &mut LcdDisplay) {
    device.tick(2_000);
}

#[test]
fn lcd_display_claims_only_within_configured_range() {
    let device = device();
    assert!(device.claims(BASE_ADDRESS));
    assert!(device.claims(BASE_ADDRESS + 1));
    assert!(!device.claims(BASE_ADDRESS - 1));
    assert!(!device.claims(BASE_ADDRESS + 2));
}

#[test]
fn lcd_display_identity_address_and_name() {
    let device = device();
    assert_eq!(device.name(), DEVICE_NAME);
    assert_eq!(device.identity_address(), BASE_ADDRESS);
    assert_eq!(device.identity(), format!("{DEVICE_NAME}@{BASE_ADDRESS:#06x}"));
}

#[test]
fn reset_state_is_eight_bit_and_not_mid_nibble() {
    let device = device();
    assert_eq!(device.peek(instruction_addr()), 0);
}

#[test]
fn eight_bit_mode_data_write_is_a_single_access() {
    let mut device = device();
    device.write(data_addr(), 0x41);
    assert_eq!(device.peek(data_addr()), 0); // AC already advanced to 1 after the write
    tick_past_busy(&mut device);
    device.write(instruction_addr(), 0x80); // Set DDRAM Address 0
    tick_past_busy(&mut device);
    assert_eq!(device.peek(data_addr()), 0x41);
}

#[test]
fn four_bit_mode_nibble_pair_write_assembles_full_instruction_byte() {
    let mut device = device();
    device.write(instruction_addr(), 0x20); // Function Set, DL=0 (4-bit), N=0, F=0
    tick_past_busy(&mut device);

    // Set DDRAM Address 0x05, as two nibbles: high nibble 0x8_, low nibble 0x5_.
    device.write(instruction_addr(), 0x80);
    device.write(instruction_addr(), 0x50);
    tick_past_busy(&mut device);

    assert_eq!(device.peek(instruction_addr()) & 0x7F, 5);
}

#[test]
fn four_bit_mode_data_nibble_pair_produces_correct_assembled_byte() {
    let mut device = device();
    device.write(instruction_addr(), 0x20); // Function Set, DL=0 (4-bit)
    tick_past_busy(&mut device);

    // Assemble 0x41 ('A') from a high nibble of 0x4_ and a low nibble of 0x1_.
    device.write(data_addr(), 0x40);
    device.write(data_addr(), 0x10);
    tick_past_busy(&mut device);

    // AC has already advanced past the written cell; rewind it (also via 4-bit nibbles) to
    // read the byte back.
    device.write(instruction_addr(), 0x80);
    device.write(instruction_addr(), 0x00);
    tick_past_busy(&mut device);
    assert_eq!(device.peek(data_addr()), 0x41);
}

#[test]
fn four_bit_mode_nibble_pairing_is_independent_per_register() {
    let mut device = device();
    device.write(instruction_addr(), 0x20); // Function Set, DL=0 (4-bit)
    tick_past_busy(&mut device);

    // Begin a data-register pairing (high nibble only)...
    device.write(data_addr(), 0x40);
    // ...and interleave a complete, unrelated instruction-register pairing (Entry Mode Set
    // 0x06: ID=1, S=0): high nibble 0x0_, low nibble 0x6_.
    device.write(instruction_addr(), 0x00);
    device.write(instruction_addr(), 0x60);
    tick_past_busy(&mut device);
    // Finish the data-register pairing with its low nibble.
    device.write(data_addr(), 0x10);
    tick_past_busy(&mut device);

    device.write(instruction_addr(), 0x80); // Set DDRAM Address 0
    device.write(instruction_addr(), 0x00);
    tick_past_busy(&mut device);
    assert_eq!(device.peek(data_addr()), 0x41, "the interleaved instruction must not disturb the in-progress data nibble pairing");
}

#[test]
fn busy_gates_a_too_early_access_without_extending_the_busy_period() {
    let mut device = device();
    device.write(instruction_addr(), 0x01); // Clear Display (long)
    assert_ne!(device.peek(instruction_addr()) & 0x80, 0, "expected busy immediately after Clear Display");

    // A write arriving while busy is discarded outright.
    device.write(data_addr(), 0xFF);
    device.tick(1); // not remotely enough to clear a long busy period
    assert_ne!(device.peek(instruction_addr()) & 0x80, 0, "still busy");
    assert_eq!(device.peek(data_addr()), 0x20, "the discarded write must not have reached DDRAM");

    tick_past_busy(&mut device);
    assert_eq!(device.peek(instruction_addr()) & 0x80, 0, "busy must clear once its period elapses");

    device.write(data_addr(), 0x41);
    tick_past_busy(&mut device);
    device.write(instruction_addr(), 0x80); // Set DDRAM Address 0
    tick_past_busy(&mut device);
    assert_eq!(device.peek(data_addr()), 0x41, "a write after busy clears must succeed");
}

#[test]
fn busy_discard_does_not_disturb_an_in_progress_nibble_pairing() {
    let mut device = device();
    device.write(instruction_addr(), 0x20); // Function Set, DL=0 (4-bit)
    tick_past_busy(&mut device);

    // Clear Display (0x01), sent as two nibbles: high nibble 0x0_, low nibble 0x1_.
    device.write(instruction_addr(), 0x01);
    device.write(instruction_addr(), 0x10);
    assert_ne!(device.peek(instruction_addr()) & 0x80, 0, "expected busy after Clear Display");

    // A second instruction, sent as two nibbles, arrives while busy: both nibbles are still
    // consumed by the nibble-pairing state machine, but the assembled instruction is discarded.
    device.write(instruction_addr(), 0x00);
    device.write(instruction_addr(), 0x60);
    assert_ne!(device.peek(instruction_addr()) & 0x80, 0, "still busy; the discarded instruction must not have reset busy");

    tick_past_busy(&mut device);
    // Nibble state must be back to Idle (not stuck mid-pair) -- a fresh instruction assembles
    // correctly: Entry Mode Set (0x06), ID=1, S=0.
    device.write(instruction_addr(), 0x00);
    device.write(instruction_addr(), 0x60);
    tick_past_busy(&mut device);
    // If nibble state were corrupted, this Clear Display (0x01) would not take effect as a
    // clean single instruction; confirm DDRAM was actually cleared.
    device.write(instruction_addr(), 0x01);
    device.write(instruction_addr(), 0x10);
    tick_past_busy(&mut device);
    device.write(instruction_addr(), 0x80);
    device.write(instruction_addr(), 0x00);
    tick_past_busy(&mut device);
    assert_eq!(device.peek(data_addr()), 0x20);
}

#[test]
fn data_read_while_busy_is_ignored_and_returns_zero() {
    let mut device = device();
    device.write(data_addr(), 0x41);
    tick_past_busy(&mut device);
    device.write(instruction_addr(), 0x80); // Set DDRAM Address 0
    tick_past_busy(&mut device);
    assert_eq!(device.peek(data_addr()), 0x41);

    device.write(instruction_addr(), 0x80); // Set DDRAM Address 0 (short busy)
    // Immediately read while busy, before ticking.
    assert_eq!(device.read(data_addr()), 0);
}

#[test]
fn ddram_address_counter_wraps_at_eighty_on_increment() {
    // Single-line geometry: raw address maps directly to the physical index (no line fold),
    // so 0x4F (79) is unambiguously the last valid DDRAM position.
    let mut device = single_line_device();
    device.write(instruction_addr(), 0x80 | 0x4F); // Set DDRAM Address 79
    tick_past_busy(&mut device);
    assert_eq!(device.peek(instruction_addr()) & 0x7F, 79);

    device.write(data_addr(), 0x2A);
    tick_past_busy(&mut device);
    assert_eq!(device.peek(instruction_addr()) & 0x7F, 0, "increment past 79 must wrap to 0");
}

#[test]
fn ddram_address_counter_wraps_at_eighty_on_decrement() {
    let mut device = single_line_device();
    device.write(instruction_addr(), 0x04); // Entry Mode Set, ID=0 (decrement), S=0
    tick_past_busy(&mut device);
    device.write(instruction_addr(), 0x80); // Set DDRAM Address 0
    tick_past_busy(&mut device);

    device.write(data_addr(), 0x2A);
    tick_past_busy(&mut device);
    assert_eq!(device.peek(instruction_addr()) & 0x7F, 79, "decrement past 0 must wrap to 79");
}

#[test]
fn cgram_address_counter_wraps_at_sixty_four() {
    let mut device = device();
    device.write(instruction_addr(), 0x7F); // Set CGRAM Address 63
    tick_past_busy(&mut device);
    assert_eq!(device.peek(instruction_addr()) & 0x7F, 63);

    device.write(data_addr(), 0x1F);
    tick_past_busy(&mut device);
    assert_eq!(device.peek(instruction_addr()) & 0x7F, 0, "increment past 63 must wrap to 0");
}

#[test]
fn dual_line_geometry_folds_second_line_address_into_upper_half() {
    let mut device = device(); // DUAL_LINE_GEOMETRY
    device.write(instruction_addr(), 0xC0); // Set DDRAM Address 0x40 (raw): line 2, position 0
    tick_past_busy(&mut device);
    assert_eq!(device.peek(instruction_addr()) & 0x7F, 40, "0x40 must fold to physical index 40, not 64");

    device.write(data_addr(), b'A');
    tick_past_busy(&mut device);
    device.write(instruction_addr(), 0x80); // Set DDRAM Address 0 (line 1)
    tick_past_busy(&mut device);
    assert_eq!(device.peek(data_addr()), 0, "line 1's own address 0 must be untouched by the line-2 write");
}

#[test]
fn single_line_geometry_uses_raw_address_directly() {
    let mut device = single_line_device();
    device.write(instruction_addr(), 0x80 | 0x28); // Set DDRAM Address 40 (no line-2 concept here)
    tick_past_busy(&mut device);
    assert_eq!(device.peek(instruction_addr()) & 0x7F, 40);
}

#[test]
fn clear_display_fills_ddram_with_spaces_and_resets_address_counter() {
    let mut device = device();
    device.write(data_addr(), 0x41);
    tick_past_busy(&mut device);
    device.write(instruction_addr(), 0x04); // Entry Mode Set, ID=0 (decrement)
    tick_past_busy(&mut device);

    device.write(instruction_addr(), 0x01); // Clear Display
    tick_past_busy(&mut device);

    assert_eq!(device.peek(instruction_addr()) & 0x7F, 0);
    assert_eq!(device.peek(data_addr()), 0x20);
    device.write(instruction_addr(), 0x7F); // Set CGRAM Address 63, just to move AC off 0...
    tick_past_busy(&mut device);
    device.write(instruction_addr(), 0x80); // ...then back to DDRAM 0, to scan every DDRAM cell
    tick_past_busy(&mut device);
    for _ in 0..80 {
        assert_eq!(device.read(data_addr()), 0x20);
        tick_past_busy(&mut device);
    }
}

#[test]
fn return_home_resets_shift_offsets_but_not_ddram_contents() {
    let mut device = device();
    device.write(data_addr(), 0x41);
    tick_past_busy(&mut device);

    device.write(instruction_addr(), 0x10 | 0x08 | 0x04); // Cursor or Display Shift, SC=1, RL=1
    tick_past_busy(&mut device);
    assert_eq!(device.line_shift, [1, 1]);

    device.write(instruction_addr(), 0x02); // Return Home
    tick_past_busy(&mut device);
    assert_eq!(device.line_shift, [0, 0]);

    device.write(instruction_addr(), 0x80); // Set DDRAM Address 0
    tick_past_busy(&mut device);
    assert_eq!(device.peek(data_addr()), 0x41, "Return Home must not touch DDRAM contents");
}

#[test]
fn display_shift_moves_every_line_together() {
    let mut device = device(); // DUAL_LINE_GEOMETRY: two independent 40-byte lines
    device.write(instruction_addr(), 0x10 | 0x08 | 0x04); // SC=1, RL=1 (shift right)
    tick_past_busy(&mut device);
    assert_eq!(device.line_shift, [1, 1], "a shared shift must move both lines, not just the one AC targets");
}

#[test]
fn cursor_only_shift_moves_address_counter_without_touching_shift_offsets_or_ddram() {
    let mut device = device();
    device.write(data_addr(), 0x41);
    tick_past_busy(&mut device);
    device.write(instruction_addr(), 0x80); // Set DDRAM Address 0
    tick_past_busy(&mut device);

    device.write(instruction_addr(), 0x10 | 0x04); // SC=0, RL=1 (cursor right)
    tick_past_busy(&mut device);

    assert_eq!(device.peek(instruction_addr()) & 0x7F, 1, "cursor-only shift must move the address counter");
    assert_eq!(device.line_shift, [0, 0], "cursor-only shift must not touch shift offsets");
    device.write(instruction_addr(), 0x80); // Set DDRAM Address 0
    tick_past_busy(&mut device);
    assert_eq!(device.peek(data_addr()), 0x41, "cursor-only shift must not touch DDRAM contents");
}

#[test]
fn entry_mode_shift_moves_display_in_the_same_direction_as_id() {
    let mut device = device();
    device.write(instruction_addr(), 0x04 | 0x01); // Entry Mode Set, ID=0 (decrement), S=1
    tick_past_busy(&mut device);

    device.write(data_addr(), b'A');
    tick_past_busy(&mut device);

    assert_eq!(device.line_shift, [39, 39], "S accompanying a decrementing write must shift backward");
}

#[test]
fn function_set_selects_font_height() {
    let mut device = device();
    device.write(instruction_addr(), 0x20 | 0x10 | 0x04); // Function Set, DL=1 (8-bit), F=1
    tick_past_busy(&mut device);
    assert!(device.font_5x10);
}

#[test]
fn reset_returns_to_eight_bit_mode_and_clears_pending_nibble() {
    let mut device = device();
    device.write(instruction_addr(), 0x20); // Function Set, DL=0 (4-bit)
    tick_past_busy(&mut device);
    device.write(data_addr(), 0x40); // begin a nibble pair, leave it pending

    device.reset();

    assert_eq!(device.data_nibble, NibbleState::Idle);
    assert!(device.interface_width_8bit);
    // A plain 8-bit write now takes effect as a single, complete access.
    device.write(data_addr(), 0x41);
    tick_past_busy(&mut device);
    device.write(instruction_addr(), 0x80); // Set DDRAM Address 0
    tick_past_busy(&mut device);
    assert_eq!(device.peek(data_addr()), 0x41);
}

#[test]
fn reset_preserves_ddram_contents() {
    let mut device = device();
    device.write(data_addr(), 0x41);
    tick_past_busy(&mut device);
    device.write(instruction_addr(), 0x80); // Set DDRAM Address 0
    tick_past_busy(&mut device);

    device.reset();

    assert_eq!(device.peek(data_addr()), 0x41);
}

#[test]
fn lcd_display_reset_logs_device_message() {
    let mut device = device();
    device.set_log_sender(LogSender::with_capacity(4));
    device.reset();
    let received = &device.log_sender.records[0];
    assert_eq!(received.category, LogCategory::Device);
    assert_eq!(received.message, format!("{DEVICE_NAME}@0x{BASE_ADDRESS:04x} reset"));
}

#[test]
fn a_completed_data_write_pushes_a_composited_frame_to_an_attached_sink() {
    let mut device = device(); // DUAL_LINE_GEOMETRY: 16x2
    let (tx, mut rx) = mpsc::channel(4);
    device.attach_frame_sink(tx);

    device.write(data_addr(), 0x41);

    let frame = rx.try_recv().expect("expected a composited frame after a completed data write");
    assert_eq!(frame.columns, 16);
    assert_eq!(frame.rows, 2);
    assert_eq!(frame.pixels.len(), 16 * 5 * 2 * 8 * 4);
}

#[test]
fn a_completed_instruction_pushes_a_composited_frame_to_an_attached_sink() {
    let mut device = device();
    let (tx, mut rx) = mpsc::channel(4);
    device.attach_frame_sink(tx);

    device.write(instruction_addr(), 0x08 | 0x04); // Display On/Off Control, D=1
    assert!(rx.try_recv().is_ok(), "expected a composited frame after a completed instruction");
}

#[test]
fn a_busy_discarded_write_does_not_push_a_frame() {
    let mut device = device();
    let (tx, mut rx) = mpsc::channel(4);
    device.attach_frame_sink(tx);

    device.write(instruction_addr(), 0x01); // Clear Display (long busy)
    rx.try_recv().expect("expected a frame from the Clear Display instruction itself");

    device.write(data_addr(), 0xFF); // discarded while busy
    assert!(rx.try_recv().is_err(), "a busy-discarded write must not push a frame");
}

#[test]
fn a_data_read_does_not_push_a_frame() {
    let mut device = device();
    device.write(data_addr(), 0x41);
    tick_past_busy(&mut device);
    device.write(instruction_addr(), 0x80); // Set DDRAM Address 0
    tick_past_busy(&mut device);

    let (tx, mut rx) = mpsc::channel(4);
    device.attach_frame_sink(tx);
    device.read(data_addr());
    assert!(rx.try_recv().is_err(), "a read must never push a frame");
}

#[test]
fn lcd_display_shutdown_drops_the_frame_sink_closing_the_channel() {
    let mut device = device();
    let (tx, mut rx) = mpsc::channel(4);
    device.attach_frame_sink(tx);

    device.shutdown();

    device.write(data_addr(), 0x41);
    assert!(rx.try_recv().is_err(), "channel should be closed once the sink is dropped");
}
