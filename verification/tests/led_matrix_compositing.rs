use emma65::led_matrix::compositing::{composite_matrix, default_palette, Rgb565};
use emma65::led_matrix::{PALETTE_LEN, PIXELS_PER_MATRIX};

#[test]
fn new_masks_out_of_range_components_defensively() {
    let color = Rgb565::new(0xFF, 0xFF, 0xFF);
    assert_eq!(color, Rgb565::new(0x1F, 0x3F, 0x1F));
}

#[test]
fn from_rgb888_masks_to_native_bit_width() {
    assert_eq!(Rgb565::from_rgb888(0x00, 0x00, 0x00), Rgb565::new(0, 0, 0));
    assert_eq!(Rgb565::from_rgb888(0xFF, 0xFF, 0xFF), Rgb565::new(0x1F, 0x3F, 0x1F));
    // A component not a multiple of 8 (red/blue) or 4 (green) is truncated, not rounded.
    assert_eq!(Rgb565::from_rgb888(0x0F, 0x0F, 0x0F), Rgb565::new(0x01, 0x03, 0x01));
}

#[test]
fn to_rgb888_round_trips_zero_and_max_exactly() {
    assert_eq!(Rgb565::new(0, 0, 0).to_rgb888(), (0x00, 0x00, 0x00));
    assert_eq!(Rgb565::new(0x1F, 0x3F, 0x1F).to_rgb888(), (0xFF, 0xFF, 0xFF));
}

#[test]
fn to_rgb888_scales_by_bit_replication_not_left_shift() {
    // A bare left-shift (r << 3) would leave red at 0xF8, short of 0xFF; bit-replication
    // fills the low-order bits from the high-order bits instead.
    assert_eq!(Rgb565::new(0x1F, 0, 0).to_rgb888().0, 0xFF);
    assert_eq!(Rgb565::new(0, 0x3F, 0).to_rgb888().1, 0xFF);
    assert_eq!(Rgb565::new(0, 0, 0x1F).to_rgb888().2, 0xFF);
}

#[test]
fn write_then_read_round_trip_is_not_guaranteed_exact() {
    // a written byte that isn't a multiple of the channel's discarded bits
    // reads back changed.
    let stored = Rgb565::from_rgb888(0x0F, 0x0F, 0x0F);
    assert_ne!(stored.to_rgb888(), (0x0F, 0x0F, 0x0F));
}

#[test]
fn zero_and_max_round_trip_exactly() {
    assert_eq!(Rgb565::from_rgb888(0x00, 0x00, 0x00).to_rgb888(), (0x00, 0x00, 0x00));
    assert_eq!(Rgb565::from_rgb888(0xFF, 0xFF, 0xFF).to_rgb888(), (0xFF, 0xFF, 0xFF));
}

#[test]
fn composite_matrix_maps_each_pixel_to_its_palette_color() {
    let palette = [Rgb565::new(0, 0, 0), Rgb565::new(0x1F, 0, 0), Rgb565::new(0, 0x3F, 0)];
    let mut pixels = vec![0u8; PIXELS_PER_MATRIX];
    pixels[0] = 1; // top-left: red
    pixels[PIXELS_PER_MATRIX - 1] = 2; // bottom-right: green

    let rgba = composite_matrix(&pixels, &palette);

    assert_eq!(rgba.len(), PIXELS_PER_MATRIX * 4);
    assert_eq!(&rgba[0..4], &[0xFF, 0x00, 0x00, 0xFF]);
    let last = rgba.len() - 4;
    assert_eq!(&rgba[last..], &[0x00, 0xFF, 0x00, 0xFF]);
    // An untouched pixel (index 0 in the palette) composites to black, opaque.
    assert_eq!(&rgba[4..8], &[0x00, 0x00, 0x00, 0xFF]);
}

#[test]
fn composite_matrix_wraps_out_of_range_indices_via_modulo() {
    let palette = [Rgb565::new(10, 20, 5), Rgb565::new(0, 0, 0)];
    let mut pixels = vec![0u8; PIXELS_PER_MATRIX];
    pixels[0] = 4; // 4 % 2 == 0 -> first entry

    let rgba = composite_matrix(&pixels, &palette);

    assert_eq!(&rgba[0..4], &[palette[0].to_rgb888().0, palette[0].to_rgb888().1, palette[0].to_rgb888().2, 0xFF]);
}

#[test]
fn default_palette_has_expected_length_and_worked_values() {
    let palette = default_palette();
    assert_eq!(palette.len(), PALETTE_LEN);
    assert_eq!(palette[0], Rgb565::new(0, 0, 0), "index 0 is black");
    assert_eq!(palette[9], Rgb565::new(31, 0, 0), "index 9 is bright red");
    assert_eq!(palette[255], Rgb565::new(31, 63, 31), "index 255 is the top of the grayscale ramp");
}

#[test]
fn default_palette_half_intensity_block_matches_spec() {
    let palette = default_palette();
    assert_eq!(palette[1], Rgb565::new(15, 0, 0)); // red
    assert_eq!(palette[7], Rgb565::new(23, 47, 23)); // white
}

#[test]
fn default_palette_color_cube_first_and_last_entries() {
    let palette = default_palette();
    // Cube starts at index 16 with (0, 0, 0) and ends at index 231 with (5, 5, 5) scaled up.
    assert_eq!(palette[16], Rgb565::new(0, 0, 0));
    assert_eq!(palette[231], Rgb565::new(31, 63, 31));
}

#[test]
fn default_palette_grayscale_ramp_starts_black() {
    let palette = default_palette();
    assert_eq!(palette[232], Rgb565::new(0, 0, 0));
}
