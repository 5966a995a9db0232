use emma65::display::font::{Font, FONT_BYTES};

#[test]
fn font_from_bytes_rejects_wrong_length() {
    let err = Font::from_bytes(&[0u8; FONT_BYTES - 1]).unwrap_err();
    assert_eq!(err.actual_len, FONT_BYTES - 1);
}

#[test]
fn font_from_bytes_accepts_exact_length() {
    let data = vec![0u8; FONT_BYTES];
    assert!(Font::from_bytes(&data).is_ok());
}

#[test]
fn glyph_reads_correct_slice() {
    let mut data = vec![0u8; FONT_BYTES];
    data[8 * 0x41..8 * 0x41 + 8].copy_from_slice(&[1, 2, 3, 4, 5, 6, 7, 8]);
    let font = Font::from_bytes(&data).unwrap();
    assert_eq!(font.glyph(0x41), &[1, 2, 3, 4, 5, 6, 7, 8]);
    assert_eq!(font.glyph(0x00), &[0, 0, 0, 0, 0, 0, 0, 0]);
}

#[test]
fn default_font_is_well_formed_and_ascii_covers_printable_range() {
    let font = Font::default();
    // 'A' (0x41) in font8x8_basic is a well-known non-blank glyph; a blank glyph here
    // would indicate the wrong header (or wrong slice of it) was embedded.
    assert_ne!(font.glyph(0x41), &[0u8; 8]);
    // NUL (0x00) is blank in font8x8_basic.
    assert_eq!(font.glyph(0x00), &[0u8; 8]);
}

#[test]
fn default_font_box_drawing_range_is_populated() {
    let font = Font::default();
    // 0x80 is the first glyph borrowed from font8x8_box (a thin horizontal line);
    // it must not be blank, unlike the Latin-1 C1 control codes it replaces.
    assert_ne!(font.glyph(0x80), &[0u8; 8]);
}
