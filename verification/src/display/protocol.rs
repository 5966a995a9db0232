//! Wire codec for the display's external protocol: a one-time header sent when a transport is
//! attached, followed by one frame message per vsync. The header alone fixes the size of every
//! frame message.

use crate::bytes;
use crate::bytes::{append_le16, append_le32};
use crate::display::compositing;
use crate::display::compositing::Rgb24;
use crate::display::font::Font;
use vstd::prelude::*;

verus! {

/// Protocol version, incremented on any wire-incompatible change.
pub const VERSION: u8 = 1;

/// The header: the magic `E65D`, the version, grid dimensions, vsync cadence, palette length, then
/// the raw font bytes.
pub open spec fn header_bytes(
    columns: u32,
    rows: u32,
    frame_rate_hz: u32,
    palette_len: u16,
    font: Seq<u8>,
) -> Seq<u8> {
    seq![0x45u8, 0x36u8, 0x35u8, 0x44u8, VERSION] + bytes::le32(columns) + bytes::le32(rows)
        + bytes::le32(frame_rate_hz) + bytes::le16(palette_len) + font
}

/// The colors of a palette as RGB24 triples.
pub open spec fn palette_bytes(palette: Seq<Rgb24>) -> Seq<u8> {
    Seq::new(3 * palette.len(), |i: int| compositing::channel_of(palette[i / 3], i % 3))
}

/// A frame message: character RAM, then color RAM, then the current palette.
pub open spec fn frame_bytes(char_ram: Seq<u8>, color_ram: Seq<u8>, palette: Seq<Rgb24>) -> Seq<
    u8,
> {
    char_ram + color_ram + palette_bytes(palette)
}

/// Builds the one-time header.
pub fn encode_header(
    columns: u32,
    rows: u32,
    frame_rate_hz: u32,
    palette_len: u16,
    font: &Font,
) -> (header: Vec<u8>)
    ensures
        header@ == header_bytes(columns, rows, frame_rate_hz, palette_len, font@),
{
    let mut buf: Vec<u8> = vec![0x45, 0x36, 0x35, 0x44, VERSION];
    assert(buf@ =~= seq![0x45u8, 0x36u8, 0x35u8, 0x44u8, VERSION]);
    append_le32(&mut buf, columns);
    append_le32(&mut buf, rows);
    append_le32(&mut buf, frame_rate_hz);
    append_le16(&mut buf, palette_len);
    buf.extend_from_slice(font.as_bytes());
    assert(buf@ =~= header_bytes(columns, rows, frame_rate_hz, palette_len, font@));
    buf
}

/// Builds one frame message.
pub fn encode_frame(char_ram: &[u8], color_ram: &[u8], palette: &[Rgb24]) -> (frame: Vec<u8>)
    ensures
        frame@ == frame_bytes(char_ram@, color_ram@, palette@),
{
    let mut buf: Vec<u8> = Vec::new();
    buf.extend_from_slice(char_ram);
    buf.extend_from_slice(color_ram);
    let ghost ram = char_ram@ + color_ram@;
    assert(buf@ =~= ram);
    let mut i: usize = 0;
    while i < palette.len()
        invariant
            i <= palette@.len(),
            buf@.len() == ram.len() + 3 * i,
            forall|k: int| 0 <= k < ram.len() ==> buf@[k] == ram[k],
            forall|k: int|
                0 <= k < 3 * i ==> #[trigger] buf@[ram.len() + k] == compositing::channel_of(
                    palette@[k / 3],
                    k % 3,
                ),
        decreases palette@.len() - i,
    {
        let color = palette[i];
        let ghost before = buf@;
        buf.push(color.r);
        buf.push(color.g);
        buf.push(color.b);
        proof {
            assert forall|k: int| 0 <= k < 3 * i + 3 implies #[trigger] buf@[ram.len() + k]
                == compositing::channel_of(palette@[k / 3], k % 3) by {
                if k < 3 * i {
                    assert(buf@[ram.len() + k] == before[ram.len() + k]);
                }
            }
        }
        i += 1;
    }
    proof {
        let expected = frame_bytes(char_ram@, color_ram@, palette@);
        assert forall|j: int| 0 <= j < expected.len() implies buf@[j] == expected[j] by {
            if j >= ram.len() {
                assert(buf@[ram.len() + (j - ram.len())] == palette_bytes(palette@)[j - ram.len()]);
            }
        }
        assert(buf@ =~= expected);
    }
    buf
}

/// The size of a frame message rests on the sizes of its parts alone, not on their contents.
pub proof fn frame_size_is_fixed(
    a: (Seq<u8>, Seq<u8>, Seq<Rgb24>),
    b: (Seq<u8>, Seq<u8>, Seq<Rgb24>),
)
    requires
        a.0.len() == b.0.len(),
        a.1.len() == b.1.len(),
        a.2.len() == b.2.len(),
    ensures
        frame_bytes(a.0, a.1, a.2).len() == frame_bytes(b.0, b.1, b.2).len(),
{
}

/// The header is `E65D`, the version 1, three numbers of four bytes and one of two, and the font.
pub proof fn header_layout(
    columns: u32,
    rows: u32,
    frame_rate_hz: u32,
    palette_len: u16,
    font: Seq<u8>,
)
    ensures
        ({
            let header = header_bytes(columns, rows, frame_rate_hz, palette_len, font);
            &&& header.len() == 19 + font.len()
            &&& header.take(5) == seq![0x45u8, 0x36, 0x35, 0x44, 1]
            &&& header.subrange(5, 9) == bytes::le32(columns)
            &&& header.subrange(9, 13) == bytes::le32(rows)
            &&& header.subrange(13, 17) == bytes::le32(frame_rate_hz)
            &&& header.subrange(17, 19) == bytes::le16(palette_len)
            &&& header.skip(19) == font
        }),
{
    let header = header_bytes(columns, rows, frame_rate_hz, palette_len, font);
    assert(header.take(5) =~= seq![0x45u8, 0x36, 0x35, 0x44, 1]);
    assert(header.subrange(5, 9) =~= bytes::le32(columns));
    assert(header.subrange(9, 13) =~= bytes::le32(rows));
    assert(header.subrange(13, 17) =~= bytes::le32(frame_rate_hz));
    assert(header.subrange(17, 19) =~= bytes::le16(palette_len));
    assert(header.skip(19) =~= font);
}

/// A frame message is the characters, then the colors, then red, green and blue of each palette
/// entry.
pub proof fn frame_layout(char_ram: Seq<u8>, color_ram: Seq<u8>, palette: Seq<Rgb24>, i: int)
    requires
        0 <= i < palette.len(),
    ensures
        ({
            let frame = frame_bytes(char_ram, color_ram, palette);
            let colors = (char_ram.len() + color_ram.len()) as int;
            &&& frame.len() == colors + 3 * palette.len()
            &&& frame.take(char_ram.len() as int) == char_ram
            &&& frame.subrange(char_ram.len() as int, colors) == color_ram
            &&& frame[colors + 3 * i] == palette[i].r
            &&& frame[colors + 3 * i + 1] == palette[i].g
            &&& frame[colors + 3 * i + 2] == palette[i].b
        }),
{
    let frame = frame_bytes(char_ram, color_ram, palette);
    assert(frame.take(char_ram.len() as int) =~= char_ram);
    assert(frame.subrange(char_ram.len() as int, (char_ram.len() + color_ram.len()) as int)
        =~= color_ram);
    assert((3 * i) / 3 == i && (3 * i + 1) / 3 == i && (3 * i + 2) / 3 == i);
}

} // verus!
