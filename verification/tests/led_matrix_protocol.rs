use emma65::led_matrix::compositing::Rgb565;
use emma65::led_matrix::protocol::{
    encode_block, encode_brightness, encode_header, encode_palette, encode_power, MSG_BLOCK,
    MSG_BRIGHTNESS, MSG_PALETTE, MSG_POWER,
};
use emma65::led_matrix::PIXELS_PER_MATRIX;

#[test]
fn header_layout_matches_spec() {
    let header = encode_header(4, 2, 100);

    assert_eq!(&header[0..4], b"E65M");
    assert_eq!(header[4], 2); // version
    assert_eq!(header[5], 4); // matrix_count
    assert_eq!(header[6], 2); // columns
    assert_eq!(&header[7..11], &100u32.to_le_bytes());
    assert_eq!(header.len(), 11);
}

#[test]
fn block_layout_matches_spec() {
    let pixels = vec![7u8; PIXELS_PER_MATRIX];
    let block = encode_block(3, &pixels);

    assert_eq!(block[0], MSG_BLOCK);
    assert_eq!(block[1], 3);
    assert_eq!(&block[2..], pixels.as_slice());
    assert_eq!(block.len(), 1026);
}

#[test]
fn palette_layout_matches_spec() {
    let color = Rgb565::new(0x1F, 0x3F, 0x00); // max red, max green, no blue
    let message = encode_palette(9, color);

    assert_eq!(message[0], MSG_PALETTE);
    assert_eq!(message[1], 9);
    assert_eq!(&message[2..4], &color.to_packed565().to_le_bytes());
    assert_eq!(message.len(), 4);
}

#[test]
fn palette_packing_places_channels_at_spec_bit_positions() {
    let color = Rgb565::new(0b10101, 0b110011, 0b01010);
    let packed = color.to_packed565();

    assert_eq!(packed, 0b1010_1110_0110_1010);
}

#[test]
fn power_layout_matches_spec() {
    let message = encode_power(0b0110);

    assert_eq!(message[0], MSG_POWER);
    assert_eq!(message[1], 0b0110);
    assert_eq!(message.len(), 2);
}

#[test]
fn brightness_layout_matches_spec() {
    let message = encode_brightness(0x7F);

    assert_eq!(message[0], MSG_BRIGHTNESS);
    assert_eq!(message[1], 0x7F);
    assert_eq!(message.len(), 2);
}
