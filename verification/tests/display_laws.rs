//! What holds of the displays, on concrete values.

use emma65::address::AddressRange;
use emma65::device::IoDevice;
use emma65::display::compositing::{resolve_palette_index, Rgb24};
use emma65::display::font::{Font, FontError};
use emma65::display::{frame_cycles, CharDisplay};
use emma65::lcd_display::cgrom::{CgRom, CgRomError};
use emma65::lcd_display::compositing::{ddram_cursor_position, glyph_rows};
use emma65::lcd_display::{AddressCounterTarget, Geometry, LcdDisplay, NibbleState};
use emma65::led_matrix::compositing::{composite_lit_matrix, default_palette, Rgb565};
use emma65::led_matrix::raster::{gather, owner_of, row_start};
use emma65::transport::TransportPort;

#[test]
fn error_texts() {
    assert_eq!(
        Font::from_bytes(&[0; 7]).unwrap_err().to_string(),
        "font data must be exactly 2048 bytes (256 glyphs of 8 bytes each), got 7"
    );
    assert_eq!(FontError { actual_len: 10_000 }.to_string().len(), 76);
    assert_eq!(
        CgRom::from_bytes(&[]).unwrap_err(),
        CgRomError { actual_len: 0 }
    );
    assert_eq!(
        CgRomError { actual_len: 12 }.to_string(),
        "CGROM data must be exactly 2112 bytes (224 glyphs of 8 bytes each, plus 32 glyphs of 10 \
         bytes each starting at 0xE0), got 12"
    );
}

#[test]
fn palette_indices_wrap() {
    assert_eq!(resolve_palette_index(200, 16), 8);
    assert_eq!(resolve_palette_index(3, 300), 3);
}

#[test]
fn frame_cycles_are_never_zero() {
    assert_eq!(frame_cycles(Some(1_000_000), 100), 10_000);
    assert_eq!(frame_cycles(None, 60), 30_720);
    assert_eq!(frame_cycles(Some(5), 60), 1);
    assert_eq!(frame_cycles(Some(5), 0), 5);
}

#[test]
fn a_deferred_swap_shows_what_was_written_by_the_vsync() {
    let palette = vec![Rgb24::new(0, 0, 0)];
    let range = AddressRange::new(0, 5);
    let mut device =
        CharDisplay::new("d", range, 2, 1, true, Some(1000), 100, Font::default(), palette);
    device.attach_external_transport(TransportPort::new(0));
    device.write(4, 0b11);
    device.write(1, 0x41);
    device.tick(9);
    assert_eq!(device.frame_source().0, &[0, 0]);
    assert_eq!(device.read(4), 0x82);
    device.tick(1);
    assert_eq!(device.frame_source().0, &[0, 0x41]);
    assert_eq!(device.read(4), 0x02);
    let sent = &device.external_transport.as_ref().unwrap().outbound;
    assert_eq!(sent[sent.len() - 7..], [0, 0x41, 0, 0, 0, 0, 0]);
}

#[test]
fn a_partial_palette_update_changes_nothing() {
    let palette = vec![Rgb24::new(9, 9, 9), Rgb24::new(8, 8, 8)];
    let range = AddressRange::new(0, 3);
    let mut device =
        CharDisplay::new("d", range, 1, 1, true, Some(1000), 100, Font::default(), palette);
    device.write(2, 0b1000);
    for value in [3, 10, 20] {
        device.write(3, value);
    }
    assert_eq!(device.palette(), &[Rgb24::new(9, 9, 9), Rgb24::new(8, 8, 8)]);
    device.write(3, 30);
    assert_eq!(device.palette(), &[Rgb24::new(9, 9, 9), Rgb24::new(10, 20, 30)]);
    assert_eq!(device.read(3), 0b10);
    assert_eq!(device.read(3), 0);
}

const DUAL: Geometry =
    Geometry { rows: 2, columns: 16, segments: &[&[(0x00, 16)], &[(0x40, 16)]] };

fn lcd() -> LcdDisplay {
    LcdDisplay::new(
        "lcd",
        AddressRange::new(0, 1),
        &DUAL,
        Some(1_000_000),
        CgRom::a02(),
        Rgb24::new(0, 0, 0),
        Rgb24::new(1, 1, 1),
    )
}

#[test]
fn lcd_is_busy_for_the_documented_time() {
    let mut device = lcd();
    device.write(0, 0x01);
    device.tick(1519);
    assert_eq!(device.read(0), 0x80);
    device.tick(1);
    assert_eq!(device.read(0), 0);
    device.write(0, 0x0C);
    device.tick(36);
    assert_eq!(device.read(0), 0x80);
    device.tick(1);
    assert_eq!(device.read(0), 0);
    device.write(0, 0x00);
    assert_eq!(device.read(0), 0, "no instruction takes no time");
}

#[test]
fn lcd_shifts_cancel() {
    let mut device = lcd();
    for (instruction, shift) in [(0x18, [39, 39]), (0x1C, [0, 0]), (0x1C, [1, 1])] {
        device.write(0, instruction);
        device.tick(2000);
        assert_eq!(device.line_shift, shift);
    }
}

#[test]
fn lcd_address_counter_wraps() {
    let mut counter = AddressCounterTarget::Cgram(0);
    counter.advance(false);
    assert_eq!(counter, AddressCounterTarget::Cgram(63));
    counter.advance(true);
    assert_eq!(counter.value(), 0);
    let mut counter = AddressCounterTarget::Ddram(79);
    counter.advance(true);
    assert_eq!(counter, AddressCounterTarget::Ddram(0));
}

#[test]
fn nibbles_make_bytes() {
    let mut state = NibbleState::Idle;
    assert_eq!(state.feed(0x4F, false), None);
    assert_eq!(state, NibbleState::HighReceived(0x40));
    assert_eq!(state.feed(0x1F, false), Some(0x41));
    assert_eq!(state.feed(0x99, true), Some(0x99));
    assert_eq!(state, NibbleState::Idle);
}

#[test]
fn lcd_glyphs_fill_the_cell() {
    let table = CgRom::a00();
    let cgram = [0x15u8; 64];
    assert_eq!(glyph_rows(0x41, &cgram, &table, false), vec![14, 17, 17, 31, 17, 17, 17, 0]);
    assert_eq!(glyph_rows(0x41, &cgram, &table, true), vec![14, 17, 17, 31, 17, 17, 17, 0, 0, 0]);
    assert_eq!(glyph_rows(0x03, &cgram, &table, true).len(), 10);
    assert_eq!(glyph_rows(0xFF, &cgram, &table, true), vec![31; 10]);
    assert_eq!(glyph_rows(0xFF, &cgram, &table, false), vec![31; 8]);
}

#[test]
fn lcd_cursor_is_where_its_address_is_shown() {
    assert_eq!(ddram_cursor_position(0, &DUAL, &[0, 0]), Some((0, 0)));
    assert_eq!(ddram_cursor_position(45, &DUAL, &[0, 0]), Some((1, 5)));
    assert_eq!(ddram_cursor_position(45, &DUAL, &[0, 2]), Some((1, 3)));
    assert_eq!(ddram_cursor_position(16, &DUAL, &[0, 0]), None);
    assert_eq!(ddram_cursor_position(16, &DUAL, &[1, 1]), Some((0, 15)));
}

#[test]
fn led_brightness_is_linear() {
    let palette = [Rgb565::new(31, 63, 0)];
    assert_eq!(composite_lit_matrix(&[0], &palette, true, 255), vec![255, 255, 0, 255]);
    assert_eq!(composite_lit_matrix(&[0], &palette, true, 128), vec![128, 128, 0, 255]);
    assert_eq!(composite_lit_matrix(&[0], &palette, true, 0), vec![0, 0, 0, 255]);
    assert_eq!(composite_lit_matrix(&[0], &palette, false, 255), vec![0, 0, 0, 255]);
}

#[test]
fn led_default_palette_values() {
    let palette = default_palette();
    assert_eq!(palette[8], Rgb565::new(7, 15, 7));
    assert_eq!(palette[11], Rgb565::new(31, 63, 0));
    assert_eq!(palette[17], Rgb565::new(0, 0, 6));
    assert_eq!(palette[22], Rgb565::new(0, 13, 0));
    assert_eq!(palette[52], Rgb565::new(6, 0, 0));
    assert_eq!(palette[243], Rgb565::new(15, 30, 15));
}

#[test]
fn led_raster_places() {
    assert_eq!(owner_of(4, 2, 31), 0);
    assert_eq!(owner_of(4, 2, 32), 1);
    assert_eq!(owner_of(4, 2, 64 * 32), 2);
    assert_eq!(row_start(4, 2, 3, 1), 33 * 64 + 32);
    let raster: Vec<u8> = (0..2048u32).map(|i| (i % 251) as u8).collect();
    let block = gather(&raster, 2, 2, 1);
    assert_eq!(block.len(), 1024);
    assert_eq!(block[0], 32);
    assert_eq!(block[32], 96);
}
