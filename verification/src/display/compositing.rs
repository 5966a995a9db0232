//! Pure frame compositing: character/color RAM plus a palette and font, turned into RGBA pixels.

use crate::display::font::Font;
use vstd::prelude::*;

verus! {

/// An RGB24 color, as configured in a device's palette.
#[derive(Debug, Clone, Copy, PartialEq, Eq, Structural)]
pub struct Rgb24 {
    pub r: u8,
    pub g: u8,
    pub b: u8,
}

impl Default for Rgb24 {
    /// Black.
    fn default() -> (c: Self)
        ensures
            c == (Rgb24 { r: 0, g: 0, b: 0 }),
    {
        Rgb24 { r: 0, g: 0, b: 0 }
    }
}

impl Rgb24 {
    /// A color of the given channels.
    pub fn new(r: u8, g: u8, b: u8) -> (c: Self)
        ensures
            c == (Rgb24 { r, g, b }),
    {
        Rgb24 { r, g, b }
    }
}

/// Channel `channel` of an opaque pixel: red, green, blue, alpha.
pub open spec fn channel_of(color: Rgb24, channel: int) -> u8 {
    if channel == 0 {
        color.r
    } else if channel == 1 {
        color.g
    } else if channel == 2 {
        color.b
    } else {
        0xFF
    }
}

/// An opaque RGBA frame (4 bytes per pixel, row-major, top row first) with the given color of each
/// pixel.
pub open spec fn frame_of(
    width: int,
    height: int,
    color_at: spec_fn(int, int) -> Rgb24,
) -> Seq<u8> {
    Seq::new(
        (width * height * 4) as nat,
        |k: int| channel_of(color_at(k / 4 % width, k / 4 / width), k % 4),
    )
}

/// Whether bit `n` of `bits` is set.
pub open spec fn bit_set(bits: u8, n: int) -> bool {
    (bits >> (n as u8)) & 1 != 0
}

/// The palette slot that a color-RAM byte stands for: the byte modulo the palette's length.
pub open spec fn palette_slot(index: u8, palette_len: int) -> int {
    index as int % palette_len
}

/// Resolves a color-RAM byte to a palette slot.
pub fn resolve_palette_index(index: u8, palette_len: usize) -> (slot: usize)
    requires
        palette_len > 0,
    ensures
        slot == palette_slot(index, palette_len as int),
        slot < palette_len,
{
    index as usize % palette_len
}

/// The color of pixel `(x, y)`: the cell's color where its glyph is set, else black.
pub open spec fn pixel_color(
    char_ram: Seq<u8>,
    color_ram: Seq<u8>,
    columns: int,
    palette: Seq<Rgb24>,
    font: Seq<u8>,
    x: int,
    y: int,
) -> Rgb24 {
    let cell = y / 8 * columns + x / 8;
    if bit_set(crate::display::font::glyph_of(font, char_ram[cell] as int)[y % 8], x % 8) {
        palette[palette_slot(color_ram[cell], palette.len() as int)]
    } else {
        Rgb24 { r: 0, g: 0, b: 0 }
    }
}

/// The frame that a display of `columns` by `rows` cells shows.
pub open spec fn display_frame(
    char_ram: Seq<u8>,
    color_ram: Seq<u8>,
    columns: int,
    rows: int,
    palette: Seq<Rgb24>,
    font: Seq<u8>,
) -> Seq<u8> {
    frame_of(
        columns * 8,
        rows * 8,
        |x: int, y: int| pixel_color(char_ram, color_ram, columns, palette, font, x, y),
    )
}

proof fn lemma_pixel_in_grid(p: int, columns: int, rows: int)
    requires
        columns >= 0,
        rows >= 0,
        0 <= p < (columns * 8) * (rows * 8),
    ensures
        columns > 0,
        0 <= p % (columns * 8) < columns * 8,
        0 <= p / (columns * 8) < rows * 8,
        0 <= p / (columns * 8) / 8 * columns + p % (columns * 8) / 8 < columns * rows,
{
    assert(columns > 0 && rows > 0) by (nonlinear_arith)
        requires
            columns >= 0,
            rows >= 0,
            0 <= p < (columns * 8) * (rows * 8),
    ;
    let w = columns * 8;
    vstd::arithmetic::div_mod::lemma_fundamental_div_mod(p, w);
    vstd::arithmetic::div_mod::lemma_mod_bound(p, w);
    let y = p / w;
    assert(y < rows * 8) by (nonlinear_arith)
        requires
            p == w * y + p % w,
            0 <= p % w,
            0 <= p < w * (rows * 8),
            w > 0,
    ;
    assert(y >= 0) by (nonlinear_arith)
        requires
            p == w * y + p % w,
            p % w < w,
            0 <= p,
            w > 0,
    ;
    let row = y / 8;
    let col = p % w / 8;
    assert(row * columns + col < columns * rows) by (nonlinear_arith)
        requires
            0 <= row < rows,
            0 <= col < columns,
    ;
    assert(0 <= row * columns + col) by (nonlinear_arith)
        requires
            0 <= row,
            0 <= col,
            columns > 0,
    ;
}

/// Composites one frame of `columns * 8` by `rows * 8` RGBA pixels (4 bytes per pixel, row-major,
/// top row first).
///
/// A cell's color applies only to the glyph's set pixels; unset pixels are opaque black, so every
/// composited frame is fully opaque.
pub fn composite(
    char_ram: &[u8],
    color_ram: &[u8],
    columns: u32,
    rows: u32,
    palette: &[Rgb24],
    font: &Font,
) -> (pixels: Vec<u8>)
    requires
        char_ram@.len() == columns * rows,
        color_ram@.len() == columns * rows,
        palette@.len() > 0,
        columns * rows * 256 <= usize::MAX,
    ensures
        pixels@ == display_frame(
            char_ram@,
            color_ram@,
            columns as int,
            rows as int,
            palette@,
            font@,
        ),
{
    let ghost c = columns as int;
    let ghost r = rows as int;
    let ghost expected = display_frame(char_ram@, color_ram@, c, r, palette@, font@);
    assert((c * 8) * (r * 8) == c * r * 64) by (nonlinear_arith);
    if columns == 0 || rows == 0 {
        let pixels: Vec<u8> = Vec::new();
        assert(c * r == 0) by (nonlinear_arith)
            requires
                c == 0 || r == 0,
        ;
        assert(pixels@ =~= expected);
        return pixels;
    }
    assert(c * 8 <= c * r * 256) by (nonlinear_arith)
        requires
            c >= 1,
            r >= 1,
    ;
    let width: usize = columns as usize * 8;
    let total: usize = char_ram.len() * 64;
    let mut pixels: Vec<u8> = Vec::new();
    let mut p: usize = 0;
    while p < total
        invariant
            p <= total,
            total == (c * 8) * (r * 8),
            c == columns,
            r == rows,
            c * 8 == width,
            width > 0,
            char_ram@.len() == c * r,
            color_ram@.len() == c * r,
            c * r <= usize::MAX,
            palette@.len() > 0,
            pixels@.len() == 4 * p,
            expected == display_frame(char_ram@, color_ram@, c, r, palette@, font@),
            expected.len() == 4 * total,
            forall|k: int| 0 <= k < 4 * p ==> #[trigger] pixels@[k] == expected[k],
        decreases total - p,
    {
        proof {
            lemma_pixel_in_grid(p as int, c, r);
        }
        let x: usize = p % width;
        let y: usize = p / width;
        let ghost cell_at = y as int / 8 * c + x as int / 8;
        assert(0 <= cell_at < c * r);
        assert(0 <= y as int / 8 * c) by (nonlinear_arith)
            requires
                y >= 0,
                c >= 0,
        ;
        let cell: usize = y / 8 * columns as usize + x / 8;
        let bits: u8 = font.glyph_row(char_ram[cell], y % 8);
        let color = if (bits >> ((x % 8) as u8)) & 1 != 0 {
            palette[resolve_palette_index(color_ram[cell], palette.len())]
        } else {
            Rgb24::new(0, 0, 0)
        };
        let ghost before = pixels@;
        pixels.push(color.r);
        pixels.push(color.g);
        pixels.push(color.b);
        pixels.push(0xFF);
        proof {
            let color_at = |x: int, y: int|
                pixel_color(char_ram@, color_ram@, c, palette@, font@, x, y);
            assert(color == color_at(x as int, y as int));
            assert forall|k: int| 0 <= k < 4 * p + 4 implies #[trigger] pixels@[k] == expected[k] by {
                if k < 4 * p {
                    assert(pixels@[k] == before[k]);
                } else {
                    assert(k / 4 == p);
                    assert(expected[k] == channel_of(color_at(k / 4 % (c * 8), k / 4 / (c * 8)), k % 4));
                }
            }
        }
        p += 1;
    }
    assert(pixels@ =~= expected);
    pixels
}

/// A frame is laid out row by row from the top, each row from the left, with four bytes per pixel:
/// red, green, blue, and full opacity.
pub proof fn pixel_is_four_bytes(
    width: int,
    height: int,
    color_at: spec_fn(int, int) -> Rgb24,
    x: int,
    y: int,
)
    requires
        0 <= x < width,
        0 <= y < height,
    ensures
        ({
            let frame = frame_of(width, height, color_at);
            let at = 4 * (y * width + x);
            &&& frame.len() == 4 * (width * height)
            &&& 0 <= at <= frame.len() - 4
            &&& frame[at] == color_at(x, y).r
            &&& frame[at + 1] == color_at(x, y).g
            &&& frame[at + 2] == color_at(x, y).b
            &&& frame[at + 3] == 0xFF
        }),
{
    let p = y * width + x;
    assert(0 <= p && p + 1 <= width * height) by (nonlinear_arith)
        requires
            p == y * width + x,
            0 <= x < width,
            0 <= y < height,
    ;
    vstd::arithmetic::div_mod::lemma_fundamental_div_mod_converse(p, width, y, x);
    assert((4 * p) / 4 == p && (4 * p + 1) / 4 == p && (4 * p + 2) / 4 == p && (4 * p + 3) / 4 == p);
}

/// In the frame of a character display the pixel in row `r` and column `c` of the cell at
/// `(row, column)` has the cell's palette color if bit `c` of byte `r` of the cell's glyph, which are
/// eight bytes of the font, is set; otherwise it is black.
pub proof fn glyph_bits_are_pixels(
    char_ram: Seq<u8>,
    color_ram: Seq<u8>,
    columns: int,
    rows: int,
    palette: Seq<Rgb24>,
    font: Seq<u8>,
    row: int,
    column: int,
    r: int,
    c: int,
)
    requires
        0 <= row < rows,
        0 <= column < columns,
        0 <= r < 8,
        0 <= c < 8,
        char_ram.len() == columns * rows,
        color_ram.len() == columns * rows,
        palette.len() > 0,
        font.len() == 2048,
    ensures
        ({
            let frame = display_frame(char_ram, color_ram, columns, rows, palette, font);
            let cell = row * columns + column;
            let at = 4 * ((8 * row + r) * (8 * columns) + (8 * column + c));
            let bits = font[8 * char_ram[cell] + r];
            let color = palette[color_ram[cell] as int % palette.len() as int];
            &&& frame.len() == 256 * (columns * rows)
            &&& 0 <= at <= frame.len() - 4
            &&& bits & (1u8 << (c as u8)) != 0 ==> frame.subrange(at, at + 4) == seq![
                color.r,
                color.g,
                color.b,
                0xFF,
            ]
            &&& bits & (1u8 << (c as u8)) == 0 ==> frame.subrange(at, at + 4) == seq![
                0u8,
                0,
                0,
                0xFF,
            ]
        }),
{
    let frame = display_frame(char_ram, color_ram, columns, rows, palette, font);
    let cell = row * columns + column;
    let x = 8 * column + c;
    let y = 8 * row + r;
    assert(0 <= cell && cell + 1 <= columns * rows) by (nonlinear_arith)
        requires
            cell == row * columns + column,
            0 <= row < rows,
            0 <= column < columns,
    ;
    pixel_is_four_bytes(
        columns * 8,
        rows * 8,
        |x: int, y: int| pixel_color(char_ram, color_ram, columns, palette, font, x, y),
        x,
        y,
    );
    assert((columns * 8) * (rows * 8) == 64 * (columns * rows)) by (nonlinear_arith);
    let at = 4 * (y * (8 * columns) + x);
    assert(y / 8 == row && y % 8 == r && x / 8 == column && x % 8 == c);
    let bits = font[8 * char_ram[cell] + r];
    let n = c as u8;
    assert((bits >> n) & 1 != 0 <==> bits & (1u8 << n) != 0) by (bit_vector)
        requires
            n < 8,
    ;
    assert(pixel_color(char_ram, color_ram, columns, palette, font, x, y) == if bits & (1u8 << n)
        != 0 {
        palette[color_ram[cell] as int % palette.len() as int]
    } else {
        Rgb24 { r: 0, g: 0, b: 0 }
    });
    let color = palette[color_ram[cell] as int % palette.len() as int];
    if bits & (1u8 << n) != 0 {
        assert(frame.subrange(at, at + 4) =~= seq![color.r, color.g, color.b, 0xFF]);
    } else {
        assert(frame.subrange(at, at + 4) =~= seq![0u8, 0, 0, 0xFF]);
    }
}

} // verus!
