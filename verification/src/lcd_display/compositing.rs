//! Pure frame compositing: DDRAM/CGRAM plus a CGROM table and colors, turned into RGBA pixels.

use crate::display::compositing as cells;
use crate::display::compositing::Rgb24;
use crate::lcd_display::cgrom;
use crate::lcd_display::cgrom::CgRom;
use crate::lcd_display::geometry::Geometry;
use vstd::prelude::*;

verus! {

/// Pixel width of a glyph cell, whatever the font.
pub const CELL_WIDTH: usize = 5;

/// Pixel height of a glyph cell in the 5×8 font.
pub const CELL_HEIGHT_5X8: usize = 8;

/// Pixel height of a glyph cell in the 5×10 font.
pub const CELL_HEIGHT_5X10: usize = 10;

/// Where and how the cursor is drawn: nothing unless `visible`, else a solid block if `blinking`
/// and an underline if not. `position` is a visible row and column.
#[derive(Debug, Clone, Copy, PartialEq, Eq)]
pub struct CursorState {
    pub position: Option<(u8, u8)>,
    pub visible: bool,
    pub blinking: bool,
}

impl Default for CursorState {
    fn default() -> (c: Self)
        ensures
            c == (CursorState { position: None, visible: false, blinking: false }),
    {
        CursorState { position: None, visible: false, blinking: false }
    }
}

/// Pixel height of a glyph cell.
pub open spec fn cell_height(font_5x10: bool) -> int {
    if font_5x10 {
        10
    } else {
        8
    }
}

/// Row `row` of what a DDRAM byte is drawn as. The bytes `0x00..=0x0F` select one of CGRAM's custom
/// characters: eight of 8 bytes, or four of 16 bytes of which 10 are drawn. Every other byte selects
/// a CGROM glyph, cut or padded with blank rows to the cell.
pub open spec fn glyph_row_of(
    byte: u8,
    row: int,
    cgram: Seq<u8>,
    table: Seq<u8>,
    font_5x10: bool,
) -> u8 {
    if byte <= 0x0F {
        if font_5x10 {
            cgram[byte as int % 4 * 16 + row]
        } else {
            cgram[byte as int % 8 * 8 + row]
        }
    } else if row < cgrom::glyph_height(byte) {
        cgrom::glyph_of(table, byte)[row]
    } else {
        0
    }
}

fn glyph_row(byte: u8, row: usize, cgram: &[u8; 64], table: &CgRom, font_5x10: bool) -> (bits: u8)
    requires
        row < cell_height(font_5x10),
    ensures
        bits == glyph_row_of(byte, row as int, cgram@, table@, font_5x10),
{
    if byte <= 0x0F {
        if font_5x10 {
            cgram[(byte % 4) as usize * 16 + row]
        } else {
            cgram[(byte % 8) as usize * 8 + row]
        }
    } else {
        let glyph = table.glyph(byte);
        if row < glyph.len() {
            glyph[row]
        } else {
            0
        }
    }
}

/// Resolves a DDRAM byte to the row bytes actually drawn for it, sized to the active font's cell
/// height.
pub fn glyph_rows(byte: u8, cgram: &[u8; 64], table: &CgRom, font_5x10: bool) -> (rows: Vec<u8>)
    ensures
        rows@ == Seq::new(
            cell_height(font_5x10) as nat,
            |row: int| glyph_row_of(byte, row, cgram@, table@, font_5x10),
        ),
{
    let height: usize = if font_5x10 {
        CELL_HEIGHT_5X10
    } else {
        CELL_HEIGHT_5X8
    };
    let mut rows: Vec<u8> = Vec::new();
    while rows.len() < height
        invariant
            height == cell_height(font_5x10),
            rows@.len() <= height,
            forall|i: int|
                0 <= i < rows@.len() ==> #[trigger] rows@[i] == glyph_row_of(
                    byte,
                    i,
                    cgram@,
                    table@,
                    font_5x10,
                ),
        decreases height - rows@.len(),
    {
        let row: usize = rows.len();
        rows.push(glyph_row(byte, row, cgram, table, font_5x10));
    }
    assert(rows@ =~= Seq::new(
        cell_height(font_5x10) as nat,
        |row: int| glyph_row_of(byte, row, cgram@, table@, font_5x10),
    ));
    rows
}

/// The DDRAM address that is shown `column` cells into a segment that starts at the raw address
/// `start`: each of two 40-byte lines is shifted on its own, or the whole 80-byte store as one.
pub open spec fn shifted(dual_line: bool, start: u8, column: int, line_shift: [u8; 2]) -> int {
    if dual_line {
        let line = start as int / 64 % 2;
        line * 40 + (start as int % 64 + column + line_shift[line]) % 40
    } else {
        (start + column + line_shift[0]) % 80
    }
}

fn shifted_address(dual_line: bool, start: u8, column: u8, line_shift: &[u8; 2]) -> (address: u8)
    ensures
        address == shifted(dual_line, start, column as int, *line_shift),
        address < 80,
{
    if dual_line {
        let line: u8 = start / 64 % 2;
        let position: u16 = (start % 64) as u16 + column as u16;
        let moved: u16 = (position + line_shift[line as usize] as u16) % 40;
        line * 40 + moved as u8
    } else {
        let position: u16 = start as u16 + column as u16;
        ((position + line_shift[0] as u16) % 80) as u8
    }
}

/// The segment that column `column` of a row lies in, by its start, and how far into it.
pub open spec fn segment_at(segments: Seq<(u8, u8)>, column: int) -> Option<(u8, int)>
    decreases segments.len(),
{
    if segments.len() == 0 {
        None
    } else if column < segments[0].1 {
        Some((segments[0].0, column))
    } else {
        segment_at(segments.skip(1), column - segments[0].1)
    }
}

/// The DDRAM address that the cell at `(row, column)` shows, if it shows one.
pub open spec fn address_at(
    geometry: Geometry,
    line_shift: [u8; 2],
    row: int,
    column: int,
) -> Option<int> {
    if 0 <= row < geometry.segments@.len() && 0 <= column {
        match segment_at(geometry.segments@[row]@, column) {
            Some((start, offset)) => Some(
                shifted(geometry.dual_line(), start, offset, line_shift),
            ),
            None => None,
        }
    } else {
        None
    }
}

fn cell_address(
    geometry: &Geometry,
    dual_line: bool,
    line_shift: &[u8; 2],
    row: usize,
    column: u8,
) -> (address: Option<u8>)
    requires
        dual_line == geometry.dual_line(),
    ensures
        match address_at(*geometry, *line_shift, row as int, column as int) {
            Some(a) => address matches Some(found) && found == a && a < 80,
            None => address is None,
        },
{
    if row >= geometry.segments.len() {
        return None;
    }
    let segments = geometry.segments[row];
    let mut rest: u8 = column;
    let mut i: usize = 0;
    assert(segments@.skip(0) =~= segments@);
    while i < segments.len()
        invariant
            i <= segments@.len(),
            segment_at(segments@.skip(i as int), rest as int) == segment_at(
                segments@,
                column as int,
            ),
            row < geometry.segments@.len(),
            segments@ == geometry.segments@[row as int]@,
            dual_line == geometry.dual_line(),
        decreases segments@.len() - i,
    {
        let (start, count) = segments[i];
        assert(segments@.skip(i as int).skip(1) =~= segments@.skip(i + 1));
        if rest < count {
            return Some(shifted_address(dual_line, start, rest, line_shift));
        }
        rest = rest - count;
        i += 1;
    }
    None
}

/// The cell `k` in reading order shows `address`.
pub open spec fn shows(geometry: Geometry, line_shift: [u8; 2], k: int, address: int) -> bool {
    address_at(
        geometry,
        line_shift,
        k / (geometry.columns as int),
        k % (geometry.columns as int),
    ) == Some(address)
}

/// The cell `k` is the first one in reading order that shows `address`.
pub open spec fn shows_first(
    geometry: Geometry,
    line_shift: [u8; 2],
    k: int,
    address: int,
) -> bool {
    &&& 0 <= k < geometry.columns * geometry.rows
    &&& shows(geometry, line_shift, k, address)
    &&& forall|j: int| 0 <= j < k ==> !shows(geometry, line_shift, j, address)
}

/// The row and column of the first cell in reading order that shows `address`, if any does.
pub open spec fn position_of(address: int, geometry: Geometry, line_shift: [u8; 2]) -> Option<
    (u8, u8),
> {
    if exists|k: int| shows_first(geometry, line_shift, k, address) {
        let k = choose|k: int| shows_first(geometry, line_shift, k, address);
        Some(((k / (geometry.columns as int)) as u8, (k % (geometry.columns as int)) as u8))
    } else {
        None
    }
}

/// Finds the row and column of the first cell in reading order that shows `address`, if any does.
pub fn ddram_cursor_position(address: u8, geometry: &Geometry, line_shift: &[u8; 2]) -> (position:
    Option<(u8, u8)>)
    ensures
        position == position_of(address as int, *geometry, *line_shift),
{
    let dual_line = geometry.is_dual_line();
    let columns: usize = geometry.columns as usize;
    assert(0 <= geometry.columns * geometry.rows <= 255 * 255) by (nonlinear_arith)
        requires
            geometry.columns <= 255,
            geometry.rows <= 255,
    ;
    let total: usize = columns * geometry.rows as usize;
    let mut k: usize = 0;
    while k < total
        invariant
            k <= total,
            columns == geometry.columns,
            total == geometry.columns * geometry.rows,
            dual_line == geometry.dual_line(),
            forall|j: int| 0 <= j < k ==> !shows(*geometry, *line_shift, j, address as int),
        decreases total - k,
    {
        assert(columns > 0) by (nonlinear_arith)
            requires
                k < columns * geometry.rows,
                k >= 0,
        ;
        let row: usize = k / columns;
        let column: usize = k % columns;
        assert(row < 256) by (nonlinear_arith)
            requires
                row == k / columns,
                k < columns * geometry.rows,
                columns > 0,
                geometry.rows <= 255,
        ;
        let found = cell_address(geometry, dual_line, line_shift, row, column as u8);
        if let Some(shown) = found {
            if shown == address {
                assert(shows(*geometry, *line_shift, k as int, address as int));
                assert(shows_first(*geometry, *line_shift, k as int, address as int));
                proof {
                    let c = choose|c: int|
                        shows_first(*geometry, *line_shift, c, address as int);
                    assert(c == k);
                }
                return Some((row as u8, column as u8));
            }
        }
        k += 1;
    }
    None
}

/// Whether pixel row `y` of the cell at `(row, column)` is covered by the cursor.
pub open spec fn cursor_covers(
    cursor: CursorState,
    row: int,
    column: int,
    y: int,
    font_5x10: bool,
) -> bool {
    &&& cursor.visible
    &&& cursor.position matches Some((r, c)) && r == row && c == column
    &&& cursor.blinking || y == cell_height(font_5x10) - 1
}

/// Everything that a frame is composited from.
pub ghost struct LcdState {
    pub ddram: Seq<u8>,
    pub cgram: Seq<u8>,
    pub geometry: Geometry,
    pub line_shift: [u8; 2],
    pub cursor: CursorState,
    pub display_on: bool,
    pub font_5x10: bool,
    pub table: Seq<u8>,
    pub background: Rgb24,
    pub foreground: Rgb24,
}

impl LcdState {
    /// Whether pixel `(x, y)` is dark: the display is on, and the glyph or the cursor is there.
    pub open spec fn pixel_set(self, x: int, y: int) -> bool {
        let height = cell_height(self.font_5x10);
        let row = y / height;
        let column = x / 5;
        self.display_on && match address_at(self.geometry, self.line_shift, row, column) {
            Some(address) => {
                ||| cells::bit_set(
                    glyph_row_of(
                        self.ddram[address],
                        y % height,
                        self.cgram,
                        self.table,
                        self.font_5x10,
                    ),
                    4 - x % 5,
                )
                ||| cursor_covers(self.cursor, row, column, y % height, self.font_5x10)
            },
            None => false,
        }
    }

    /// The color of pixel `(x, y)`.
    pub open spec fn pixel_color(self, x: int, y: int) -> Rgb24 {
        if self.pixel_set(x, y) {
            self.foreground
        } else {
            self.background
        }
    }

    /// The frame.
    pub open spec fn frame(self) -> Seq<u8> {
        cells::frame_of(
            self.geometry.columns * 5,
            self.geometry.rows * cell_height(self.font_5x10),
            |x: int, y: int| self.pixel_color(x, y),
        )
    }
}

/// Composites one frame of `geometry.columns * 5` by `geometry.rows * (8 or 10)` RGBA pixels, fully
/// opaque throughout: each visible cell's glyph, and the cursor, in `foreground` against
/// `background`. Nothing but `background` is shown while the display is off.
pub fn composite(
    ddram: &[u8; 80],
    cgram: &[u8; 64],
    geometry: &Geometry,
    line_shift: &[u8; 2],
    cursor: CursorState,
    display_on: bool,
    font_5x10: bool,
    table: &CgRom,
    background: Rgb24,
    foreground: Rgb24,
) -> (pixels: Vec<u8>)
    requires
        geometry.fits(),
    ensures
        pixels@ == (LcdState {
            ddram: ddram@,
            cgram: cgram@,
            geometry: *geometry,
            line_shift: *line_shift,
            cursor,
            display_on,
            font_5x10,
            table: table@,
            background,
            foreground,
        }).frame(),
{
    let ghost state = LcdState {
        ddram: ddram@,
        cgram: cgram@,
        geometry: *geometry,
        line_shift: *line_shift,
        cursor,
        display_on,
        font_5x10,
        table: table@,
        background,
        foreground,
    };
    let ghost expected = state.frame();
    let dual_line = geometry.is_dual_line();
    let height: usize = if font_5x10 {
        CELL_HEIGHT_5X10
    } else {
        CELL_HEIGHT_5X8
    };
    let width: usize = geometry.columns as usize * CELL_WIDTH;
    let lines: usize = geometry.rows as usize * height;
    assert(0 <= width * lines <= 1275 * 2550) by (nonlinear_arith)
        requires
            0 <= width <= 1275,
            0 <= lines <= 2550,
    ;
    let total: usize = width * lines;
    let mut pixels: Vec<u8> = Vec::new();
    let mut p: usize = 0;
    while p < total
        invariant
            p <= total,
            width == geometry.columns * 5,
            lines == geometry.rows * height,
            total == width * lines,
            height == cell_height(font_5x10),
            dual_line == geometry.dual_line(),
            state == (LcdState {
                ddram: ddram@,
                cgram: cgram@,
                geometry: *geometry,
                line_shift: *line_shift,
                cursor,
                display_on,
                font_5x10,
                table: table@,
                background,
                foreground,
            }),
            expected == state.frame(),
            pixels@.len() == 4 * p,
            forall|k: int| 0 <= k < 4 * p ==> #[trigger] pixels@[k] == expected[k],
        decreases total - p,
    {
        assert(width > 0) by (nonlinear_arith)
            requires
                p < width * lines,
                p >= 0,
                width >= 0,
        ;
        let x: usize = p % width;
        let y: usize = p / width;
        assert(y < lines) by (nonlinear_arith)
            requires
                y == p / width,
                p < width * lines,
                width > 0,
        ;
        let row: usize = y / height;
        let column: usize = x / CELL_WIDTH;
        assert(row < 256 && column < 256);
        let found = cell_address(geometry, dual_line, line_shift, row, column as u8);
        let color = match found {
            Some(address) => {
                let bits: u8 = glyph_row(
                    ddram[address as usize],
                    y % height,
                    cgram,
                    table,
                    font_5x10,
                );
                let in_glyph = (bits >> ((4 - x % CELL_WIDTH) as u8)) & 1 != 0;
                let at_cursor = cursor.visible && match cursor.position {
                    Some((r, c)) => r as usize == row && c as usize == column,
                    None => false,
                };
                let in_cursor = at_cursor && (cursor.blinking || y % height == height - 1);
                if display_on && (in_glyph || in_cursor) {
                    foreground
                } else {
                    background
                }
            },
            None => background,
        };
        assert(color == state.pixel_color(x as int, y as int));
        let ghost before = pixels@;
        pixels.push(color.r);
        pixels.push(color.g);
        pixels.push(color.b);
        pixels.push(0xFF);
        proof {
            let color_at = |x: int, y: int| state.pixel_color(x, y);
            assert(color == color_at(x as int, y as int));
            assert forall|k: int| 0 <= k < 4 * p + 4 implies #[trigger] pixels@[k] == expected[k] by {
                if k < 4 * p {
                    assert(pixels@[k] == before[k]);
                } else {
                    assert(k / 4 == p);
                    let w = width as int;
                    assert(k < 4 * (width * lines));
                    assert(expected[k] == cells::channel_of(color_at(k / 4 % w, k / 4 / w), k % 4));
                }
            }
        }
        p += 1;
    }
    assert(pixels@ =~= expected);
    pixels
}

/// A display that is off shows nothing but its background.
pub proof fn display_off_shows_background(state: LcdState, x: int, y: int)
    requires
        !state.display_on,
    ensures
        state.pixel_color(x, y) == state.background,
{
}

} // verus!
