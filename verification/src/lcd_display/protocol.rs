//! Wire codec for the LCD's external protocol: a one-time header, followed by self-describing frame
//! messages, since the active font changes a frame's pixel height at runtime.

use crate::bytes;
use crate::bytes::append_le16;
use crate::display::compositing::Rgb24;
use vstd::prelude::*;

verus! {

/// Protocol version, incremented on any wire-incompatible change.
pub const VERSION: u8 = 1;

/// The header: the magic `E65L`, the version, the character grid's dimensions, and the background
/// and foreground colors.
pub open spec fn header_bytes(columns: u8, rows: u8, background: Rgb24, foreground: Rgb24) -> Seq<
    u8,
> {
    seq![
        0x45u8,
        0x36u8,
        0x35u8,
        0x4Cu8,
        VERSION,
        columns,
        rows,
        background.r,
        background.g,
        background.b,
        foreground.r,
        foreground.g,
        foreground.b,
    ]
}

/// A frame message: pixel width, pixel height, then the raw RGBA pixels.
pub open spec fn frame_bytes(width_px: u16, height_px: u16, pixels: Seq<u8>) -> Seq<u8> {
    bytes::le16(width_px) + bytes::le16(height_px) + pixels
}

/// Builds the one-time header.
pub fn encode_header(columns: u8, rows: u8, background: Rgb24, foreground: Rgb24) -> (header: Vec<
    u8,
>)
    ensures
        header@ == header_bytes(columns, rows, background, foreground),
{
    let header = vec![
        0x45,
        0x36,
        0x35,
        0x4C,
        VERSION,
        columns,
        rows,
        background.r,
        background.g,
        background.b,
        foreground.r,
        foreground.g,
        foreground.b,
    ];
    assert(header@ =~= header_bytes(columns, rows, background, foreground));
    header
}

/// Builds one frame message. `pixels` holds 4 bytes for each of `width_px * height_px` pixels.
pub fn encode_frame(width_px: u16, height_px: u16, pixels: &[u8]) -> (frame: Vec<u8>)
    ensures
        frame@ == frame_bytes(width_px, height_px, pixels@),
{
    let mut buf: Vec<u8> = Vec::new();
    append_le16(&mut buf, width_px);
    append_le16(&mut buf, height_px);
    buf.extend_from_slice(pixels);
    assert(buf@ =~= frame_bytes(width_px, height_px, pixels@));
    buf
}

/// The header is `E65L`, the version 1, columns and rows, and red, green and blue of the background
/// and of the foreground.
pub proof fn header_layout(columns: u8, rows: u8, background: Rgb24, foreground: Rgb24)
    ensures
        ({
            let header = header_bytes(columns, rows, background, foreground);
            &&& header.len() == 13
            &&& header[0] == 0x45 && header[1] == 0x36 && header[2] == 0x35 && header[3] == 0x4C
            &&& header[4] == 1 && header[5] == columns && header[6] == rows
            &&& header[7] == background.r && header[8] == background.g && header[9] == background.b
            &&& header[10] == foreground.r && header[11] == foreground.g && header[12]
                == foreground.b
        }),
{
}

/// A frame message is width and height, low byte first, and then the pixels.
pub proof fn frame_layout(width_px: u16, height_px: u16, pixels: Seq<u8>)
    ensures
        ({
            let frame = frame_bytes(width_px, height_px, pixels);
            &&& frame[0] + 256 * frame[1] == width_px
            &&& frame[2] + 256 * frame[3] == height_px
            &&& frame.skip(4) == pixels
        }),
{
    assert(frame_bytes(width_px, height_px, pixels).skip(4) =~= pixels);
}

} // verus!
