use emma65::lcd_display::cgrom::{CgRom, CGROM_BYTES, EXTENDED_RANGE_START, EXTENDED_ROWS_PER_GLYPH, ROWS_PER_GLYPH, STANDARD_GLYPH_COUNT};

#[test]
fn cgrom_from_bytes_rejects_wrong_length() {
    let err = CgRom::from_bytes(&[0u8; CGROM_BYTES - 1]).unwrap_err();
    assert_eq!(err.actual_len, CGROM_BYTES - 1);
}

#[test]
fn cgrom_from_bytes_accepts_exact_length() {
    let data = vec![0u8; CGROM_BYTES];
    assert!(CgRom::from_bytes(&data).is_ok());
}

#[test]
fn glyph_reads_correct_slice_in_standard_range() {
    let mut data = vec![0u8; CGROM_BYTES];
    data[8 * 0x41..8 * 0x41 + 8].copy_from_slice(&[1, 2, 3, 4, 5, 6, 7, 8]);
    let table = CgRom::from_bytes(&data).unwrap();
    assert_eq!(table.glyph(0x41), &[1, 2, 3, 4, 5, 6, 7, 8]);
    assert_eq!(table.glyph(0x00), &[0, 0, 0, 0, 0, 0, 0, 0]);
}

#[test]
fn glyph_reads_correct_slice_in_extended_range() {
    let mut data = vec![0u8; CGROM_BYTES];
    let offset = STANDARD_GLYPH_COUNT * ROWS_PER_GLYPH + 3 * EXTENDED_ROWS_PER_GLYPH; // 0xE3
    data[offset..offset + 10].copy_from_slice(&[1, 2, 3, 4, 5, 6, 7, 8, 9, 10]);
    let table = CgRom::from_bytes(&data).unwrap();
    assert_eq!(table.glyph(0xE3), &[1, 2, 3, 4, 5, 6, 7, 8, 9, 10]);
    assert_eq!(table.glyph(0xE0), &[0u8; EXTENDED_ROWS_PER_GLYPH]);
}

#[test]
fn default_table_is_a00() {
    // A00 is the ROM code most HD44780 clones ship with.
    assert_eq!(CgRom::default(), CgRom::a00());
}

#[test]
fn a00_table_renders_a_as_a_recognizable_letter_a() {
    // 0x41 ('A'): flat top spanning three columns, widening into two vertical strokes all the
    // way down, blank cursor row at the bottom -- spot-checked against the sourced A00 table
    // rather than merely asserting non-blank, so a transposed or shifted table would fail
    // this test. A00's 'A' is flat-topped rather than A02's pointed-apex 'A' -- both are
    // correct, since the two ROM codes are genuinely different pixel masks even for glyphs
    // they share, per the real HD44780U datasheet.
    let table = CgRom::a00();
    assert_eq!(table.glyph(0x41), &[14, 17, 17, 31, 17, 17, 17, 0]);
}

#[test]
fn a00_table_yen_sign_replaces_backslash() {
    // 0x5C: A00 substitutes a Yen sign for ASCII backslash -- a ROM-code-identifying
    // difference from A02, which keeps a literal backslash there.
    let table = CgRom::a00();
    assert_eq!(table.glyph(0x5C), &[17, 10, 31, 4, 31, 4, 4, 0]);
}

#[test]
fn a00_table_extended_glyphs_are_ten_rows_with_correct_rows_0_through_7() {
    // Unlike A02, A00 has 8 glyphs (plus the solid block) whose descender genuinely reaches
    // row 7 on real hardware, verified against the datasheet's printed character table --
    // row 7 must carry that pixel data rather than being forced blank like every other glyph.
    let table = CgRom::a00();
    assert_eq!(table.glyph(0xE2).len(), 10);
    assert_eq!(table.glyph(0xE2)[7], 0b10000, "beta"); // column 0
    assert_eq!(table.glyph(0xE4)[7], 0b10000, "mu"); // column 0
    assert_eq!(table.glyph(0xE6)[7], 0b10000, "ro"); // column 0
    assert_eq!(table.glyph(0xE7)[7], 0b00001, "g"); // column 4
    assert_eq!(table.glyph(0xEA)[7], 0b00010, "j"); // column 3
    assert_eq!(table.glyph(0xF0)[7], 0b10000, "p"); // column 0
    assert_eq!(table.glyph(0xF1)[7], 0b00001, "q"); // column 4
    assert_eq!(table.glyph(0xF9)[7], 0b00001, "y"); // column 4
    assert_eq!(table.glyph(0xFF)[7], 0b11111, "solid block"); // all columns
}

#[test]
fn a00_table_extended_glyphs_carry_real_rows_8_and_9() {
    // The nine glyphs whose descenders reach row 7 also genuinely extend into rows 8/9 on real
    // 5×10-font hardware, per the datasheet's printed character table (not the padded-blank
    // shape every other CGROM glyph gets).
    let table = CgRom::a00();
    assert_eq!(&table.glyph(0xE2)[8..10], &[0b10000, 0b10000], "beta");
    assert_eq!(&table.glyph(0xE4)[8..10], &[0b10000, 0b10000], "mu");
    assert_eq!(&table.glyph(0xE6)[8..10], &[0b10000, 0b10000], "ro");
    assert_eq!(&table.glyph(0xE7)[8..10], &[0b00001, 0b01110], "g");
    assert_eq!(&table.glyph(0xEA)[8..10], &[0b10010, 0b01100], "j");
    assert_eq!(&table.glyph(0xF0)[8..10], &[0b10000, 0b10000], "p");
    assert_eq!(&table.glyph(0xF1)[8..10], &[0b00001, 0b00001], "q");
    assert_eq!(&table.glyph(0xF9)[8..10], &[0b00001, 0b01110], "y");
    assert_eq!(&table.glyph(0xFF)[8..10], &[0b11111, 0b11111], "solid block");
}

#[test]
fn a00_table_other_extended_glyphs_leave_rows_8_and_9_blank() {
    let table = CgRom::a00();
    for index in EXTENDED_RANGE_START..=0xFF {
        if matches!(index, 0xE2 | 0xE4 | 0xE6 | 0xE7 | 0xEA | 0xF0 | 0xF1 | 0xF9 | 0xFF) {
            continue;
        }
        assert_eq!(&table.glyph(index)[8..10], &[0, 0], "0x{index:02x} should be blank in rows 8/9");
    }
}

#[test]
fn a00_table_ascii_space_is_blank() {
    let table = CgRom::a00();
    assert_eq!(table.glyph(0x20), &[0u8; ROWS_PER_GLYPH]);
}

#[test]
fn a00_table_undefined_ranges_are_blank() {
    // 0x10..=0x1F and 0x80..=0x9F are gaps in the standard Hitachi ROM table.
    // A00 also leaves 0xA0 itself blank -- its populated extended range starts at 0xA1.
    let table = CgRom::a00();
    for index in 0x10..=0x1F {
        assert_eq!(table.glyph(index), &[0u8; ROWS_PER_GLYPH], "0x{index:02x} should be blank");
    }
    for index in 0x80..=0xA0 {
        assert_eq!(table.glyph(index), &[0u8; ROWS_PER_GLYPH], "0x{index:02x} should be blank");
    }
}

#[test]
fn a00_table_extended_range_is_populated() {
    // 0xA1..=0xFF carries the A00 variant's Katakana/extended glyphs -- not blank.
    let table = CgRom::a00();
    assert_ne!(table.glyph(0xA1), &[0u8; EXTENDED_ROWS_PER_GLYPH]);
    assert_ne!(table.glyph(0xFF), &[0u8; EXTENDED_ROWS_PER_GLYPH]);
}

#[test]
fn a02_table_renders_a_as_a_recognizable_letter_a() {
    // 0x41 ('A'): apex at the top-center column, widening into two vertical strokes, blank
    // cursor row at the bottom -- spot-checked against the sourced A02 table rather than
    // merely asserting non-blank, so a transposed or shifted table would fail this test.
    let table = CgRom::a02();
    assert_eq!(table.glyph(0x41), &[4, 10, 17, 17, 31, 17, 17, 0]);
}

#[test]
fn a02_table_ascii_space_is_blank() {
    let table = CgRom::a02();
    assert_eq!(table.glyph(0x20), &[0u8; ROWS_PER_GLYPH]);
}

#[test]
fn a02_table_undefined_ranges_are_blank() {
    // 0x10..=0x1F and 0x80..=0x9F are gaps in the standard Hitachi ROM table.
    let table = CgRom::a02();
    for index in 0x10..=0x1F {
        assert_eq!(table.glyph(index), &[0u8; ROWS_PER_GLYPH], "0x{index:02x} should be blank");
    }
    for index in 0x80..=0x9F {
        assert_eq!(table.glyph(index), &[0u8; ROWS_PER_GLYPH], "0x{index:02x} should be blank");
    }
}

#[test]
fn a02_table_extended_range_is_populated() {
    // 0xA0..=0xFF carries the A02 variant's extended glyphs -- not blank.
    let table = CgRom::a02();
    assert_ne!(table.glyph(0xA0), &[0u8; EXTENDED_ROWS_PER_GLYPH]);
    assert_ne!(table.glyph(0xFF), &[0u8; EXTENDED_ROWS_PER_GLYPH]);
}

#[test]
fn a02_table_extended_range_never_carries_rows_8_and_9() {
    // Unlike A00, A02 has no glyphs whose real hardware shape extends past row 7.
    let table = CgRom::a02();
    for index in EXTENDED_RANGE_START..=0xFF {
        assert_eq!(&table.glyph(index)[8..10], &[0, 0], "0x{index:02x} should be blank in rows 8/9");
    }
}
