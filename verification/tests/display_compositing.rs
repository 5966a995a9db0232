use emma65::display::compositing::{composite, Rgb24};
use emma65::display::font::{Font, FONT_BYTES};

fn one_cell_font(set_pixels: &[(usize, usize)]) -> Font {
    let mut data = vec![0u8; FONT_BYTES];
    // Glyph 0x01 has the given (row, col) pixels set; every other glyph stays blank.
    for &(row, col) in set_pixels {
        data[8_usize + row] |= 1 << col;
    }
    Font::from_bytes(&data).unwrap()
}

#[test]
fn single_cell_composites_expected_pixels() {
    // Glyph 0x01: top-left pixel (row 0, col 0) and bottom-right pixel (row 7, col 7) set.
    let font = one_cell_font(&[(0, 0), (7, 7)]);
    let palette = [Rgb24::new(0, 0, 0), Rgb24::new(255, 0, 0)];
    let char_ram = [0x01];
    let color_ram = [1u8];

    let pixels = composite(&char_ram, &color_ram, 1, 1, &palette, &font);

    assert_eq!(pixels.len(), 8 * 8 * 4);
    // Top-left pixel: red, opaque.
    assert_eq!(&pixels[0..4], &[255, 0, 0, 255]);
    // Bottom-right pixel: same red.
    let br_offset = (7 * 8 + 7) * 4;
    assert_eq!(&pixels[br_offset..br_offset + 4], &[255, 0, 0, 255]);
    // An unset pixel (row 0, col 1): opaque black.
    assert_eq!(&pixels[4..8], &[0, 0, 0, 255]);
}

#[test]
fn palette_index_wraps_via_modulo() {
    let font = one_cell_font(&[(0, 0)]);
    let palette = [Rgb24::new(10, 20, 30), Rgb24::new(40, 50, 60), Rgb24::new(70, 80, 90)];
    let char_ram = [0x01];
    // 5 % 3 == 2 -> third palette entry.
    let color_ram = [5u8];

    let pixels = composite(&char_ram, &color_ram, 1, 1, &palette, &font);

    assert_eq!(&pixels[0..4], &[70, 80, 90, 255]);
}

#[test]
fn multi_cell_grid_places_glyphs_at_correct_offsets() {
    let font = one_cell_font(&[(0, 0)]);
    let palette = [Rgb24::new(0, 0, 0), Rgb24::new(200, 200, 200)];
    // 2x1 grid: cell 0 blank (glyph 0x00), cell 1 uses glyph 0x01 with color index 1.
    let char_ram = [0x00, 0x01];
    let color_ram = [0u8, 1u8];

    let pixels = composite(&char_ram, &color_ram, 2, 1, &palette, &font);

    // Cell 0's top-left pixel: opaque black (blank glyph).
    assert_eq!(&pixels[0..4], &[0, 0, 0, 255]);
    // Cell 1's top-left pixel (pixel_x = 8, pixel_y = 0): light gray.
    let cell1_offset = 8 * 4;
    assert_eq!(&pixels[cell1_offset..cell1_offset + 4], &[200, 200, 200, 255]);
}
