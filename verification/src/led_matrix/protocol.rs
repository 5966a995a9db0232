//! Wire codec for the LED matrix's external protocol: a one-time header, followed by a tagged
//! message per matrix swap, per palette write, and per power and brightness change. Each tag has
//! exactly one fixed following length.

use crate::bytes;
use crate::bytes::{append_le16, append_le32};
use crate::led_matrix::compositing::Rgb565;
use vstd::prelude::*;

verus! {

/// Protocol version, incremented on any wire-incompatible change.
pub const VERSION: u8 = 2;

/// Tag identifying a block message.
pub const MSG_BLOCK: u8 = 1;

/// Tag identifying a palette message.
pub const MSG_PALETTE: u8 = 2;

/// Tag identifying a power message.
pub const MSG_POWER: u8 = 3;

/// Tag identifying a brightness message.
pub const MSG_BRIGHTNESS: u8 = 4;

/// The header: the magic `E65M`, the version, matrix count, arrangement column count, then the
/// auto-refresh cadence.
pub open spec fn header_bytes(matrix_count: u8, columns: u8, frame_rate_hz: u32) -> Seq<u8> {
    seq![0x45u8, 0x36u8, 0x35u8, 0x4Du8, VERSION, matrix_count, columns] + bytes::le32(
        frame_rate_hz,
    )
}

/// A block message: tag, matrix index, then that matrix's palette-index bytes.
pub open spec fn block_bytes(matrix_index: u8, pixels: Seq<u8>) -> Seq<u8> {
    seq![MSG_BLOCK, matrix_index] + pixels
}

/// A palette message: tag, entry index, then the entry's value packed as RGB565.
pub open spec fn palette_bytes(index: u8, color: Rgb565) -> Seq<u8> {
    seq![MSG_PALETTE, index] + bytes::le16(color.packed())
}

/// Builds the one-time header.
pub fn encode_header(matrix_count: u8, columns: u8, frame_rate_hz: u32) -> (header: Vec<u8>)
    ensures
        header@ == header_bytes(matrix_count, columns, frame_rate_hz),
{
    let mut buf: Vec<u8> = vec![0x45, 0x36, 0x35, 0x4D, VERSION, matrix_count, columns];
    assert(buf@ =~= seq![0x45u8, 0x36u8, 0x35u8, 0x4Du8, VERSION, matrix_count, columns]);
    append_le32(&mut buf, frame_rate_hz);
    buf
}

/// Builds one block message.
pub fn encode_block(matrix_index: u8, pixels: &[u8]) -> (message: Vec<u8>)
    ensures
        message@ == block_bytes(matrix_index, pixels@),
{
    let mut buf: Vec<u8> = vec![MSG_BLOCK, matrix_index];
    buf.extend_from_slice(pixels);
    assert(buf@ =~= block_bytes(matrix_index, pixels@));
    buf
}

/// Builds one palette message.
pub fn encode_palette(index: u8, color: Rgb565) -> (message: Vec<u8>)
    requires
        color.wf(),
    ensures
        message@ == palette_bytes(index, color),
{
    let mut buf: Vec<u8> = vec![MSG_PALETTE, index];
    assert(buf@ =~= seq![MSG_PALETTE, index]);
    append_le16(&mut buf, color.to_packed565());
    buf
}

/// Builds one power message: tag, then the power-state bitmask.
pub fn encode_power(mask: u8) -> (message: Vec<u8>)
    ensures
        message@ == seq![MSG_POWER, mask],
{
    let message = vec![MSG_POWER, mask];
    assert(message@ =~= seq![MSG_POWER, mask]);
    message
}

/// Builds one brightness message: tag, then the global brightness level.
pub fn encode_brightness(level: u8) -> (message: Vec<u8>)
    ensures
        message@ == seq![MSG_BRIGHTNESS, level],
{
    let message = vec![MSG_BRIGHTNESS, level];
    assert(message@ =~= seq![MSG_BRIGHTNESS, level]);
    message
}

/// The header is `E65M`, the version 2, the number of matrices, the columns, and the refresh rate, low
/// byte first.
pub proof fn header_layout(matrix_count: u8, columns: u8, frame_rate_hz: u32)
    ensures
        ({
            let header = header_bytes(matrix_count, columns, frame_rate_hz);
            &&& header.len() == 11
            &&& header[0] == 0x45 && header[1] == 0x36 && header[2] == 0x35 && header[3] == 0x4D
            &&& header[4] == 2 && header[5] == matrix_count && header[6] == columns
            &&& frame_rate_hz == header[7] + 256 * header[8] + 65536 * header[9] + 16777216
                * header[10]
        }),
{
    bytes::bytes_add_up(0, frame_rate_hz);
}

/// A block message is 1, the matrix, and its pixels. A palette message is 2, the entry, and its color
/// in two bytes, the low one first: red is in the five high-order bits, blue in the five low-order
/// ones, and green in the six between.
pub proof fn message_layout(index: u8, pixels: Seq<u8>, color: Rgb565)
    requires
        color.wf(),
    ensures
        block_bytes(index, pixels)[0] == 1,
        block_bytes(index, pixels)[1] == index,
        block_bytes(index, pixels).skip(2) == pixels,
        palette_bytes(index, color).len() == 4,
        palette_bytes(index, color)[0] == 2,
        palette_bytes(index, color)[1] == index,
        palette_bytes(index, color)[2] + 256 * palette_bytes(index, color)[3] == 2048 * color.r + 32
            * color.g + color.b,
{
    assert(block_bytes(index, pixels).skip(2) =~= pixels);
}

} // verus!
