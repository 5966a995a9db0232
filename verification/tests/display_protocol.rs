use emma65::display::compositing::Rgb24;
use emma65::display::font::{Font, FONT_BYTES};
use emma65::display::protocol::{encode_frame, encode_header};

#[test]
fn protocol_header_layout_matches_spec() {
    let font = Font::default();
    let header = encode_header(40, 25, 60, 16, &font);

    assert_eq!(&header[0..4], b"E65D");
    assert_eq!(header[4], 1);
    assert_eq!(&header[5..9], &40u32.to_le_bytes());
    assert_eq!(&header[9..13], &25u32.to_le_bytes());
    assert_eq!(&header[13..17], &60u32.to_le_bytes());
    assert_eq!(&header[17..19], &16u16.to_le_bytes());
    assert_eq!(&header[19..19 + FONT_BYTES], font.as_bytes());
    assert_eq!(header.len(), 19 + FONT_BYTES);
}

#[test]
fn protocol_frame_layout_matches_spec() {
    let char_ram = vec![0x41, 0x42, 0x43, 0x44];
    let color_ram = vec![1, 2, 3, 4];
    let palette = vec![Rgb24::new(1, 2, 3), Rgb24::new(4, 5, 6)];

    let frame = encode_frame(&char_ram, &color_ram, &palette);

    assert_eq!(&frame[0..4], char_ram.as_slice());
    assert_eq!(&frame[4..8], color_ram.as_slice());
    assert_eq!(&frame[8..11], &[1, 2, 3]);
    assert_eq!(&frame[11..14], &[4, 5, 6]);
    assert_eq!(frame.len(), 14);
}

#[test]
fn frame_size_is_constant_regardless_of_ram_contents() {
    let char_ram = vec![0u8; 8];
    let color_ram = vec![0u8; 8];
    let palette = vec![Rgb24::new(0, 0, 0); 4];

    let frame_a = encode_frame(&char_ram, &color_ram, &palette);
    let frame_b = encode_frame(&[0xFF; 8], &[0xAA; 8], &[Rgb24::new(255, 255, 255); 4]);

    assert_eq!(frame_a.len(), frame_b.len());
}
