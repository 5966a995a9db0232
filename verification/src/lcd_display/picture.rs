//! What an LCD shows, pixel by pixel.

use super::compositing;
use super::compositing::LcdState;
use super::geometry;
use super::geometry::Geometry;
use crate::display::compositing as cells;
use vstd::prelude::*;

verus! {

/// Row `r` of what a DDRAM byte is drawn as. The bytes below `0x10` are drawn from CGRAM, eight bytes
/// for each value of the three low-order bits, or sixteen for each value of the two low-order bits in
/// the taller font. The others are drawn from the table, eight bytes each up to `0xDF` and ten bytes
/// each from `0xE0` on; rows that a glyph does not have are blank.
pub proof fn glyphs_come_from_cgram_and_table(
    byte: u8,
    r: int,
    cgram: Seq<u8>,
    table: Seq<u8>,
    tall: bool,
)
    requires
        cgram.len() == 64,
        table.len() == 2112,
        0 <= r < if tall { 10int } else { 8 },
    ensures
        ({
            let bits = compositing::glyph_row_of(byte, r, cgram, table, tall);
            &&& byte < 0x10 && !tall ==> bits == cgram[8 * (byte & 0x07) + r]
            &&& byte < 0x10 && tall ==> bits == cgram[16 * (byte & 0x03) + r]
            &&& 0x10 <= byte < 0xE0 && r < 8 ==> bits == table[8 * byte + r]
            &&& 0x10 <= byte < 0xE0 && r >= 8 ==> bits == 0
            &&& 0xE0 <= byte ==> bits == table[224 * 8 + 10 * (byte - 0xE0) + r]
        }),
{
    crate::bytes::masks_by_division(byte);
}

/// The segments of a row are shown side by side: place `k` of segment `i` is as many columns to the
/// right as the segments before it are wide, and `k` more.
pub proof fn segments_lie_side_by_side(segments: Seq<(u8, u8)>, i: int, k: int)
    requires
        0 <= i < segments.len(),
        0 <= k < segments[i].1,
    ensures
        compositing::segment_at(segments, geometry::row_width(segments.take(i)) + k) == Some(
            (segments[i].0, k),
        ),
        geometry::row_width(segments.take(i)) + k < geometry::row_width(segments),
    decreases segments.len(),
{
    let rest = segments.skip(1);
    lemma_width_from_left(segments);
    if i == 0 {
        assert(segments.take(0) =~= Seq::empty());
        assert(geometry::row_width(segments.take(0)) == 0);
        lemma_width_is_natural(rest);
    } else {
        segments_lie_side_by_side(rest, i - 1, k);
        assert(rest.take(i - 1) =~= segments.take(i).skip(1));
        lemma_width_from_left(segments.take(i));
        lemma_width_is_natural(rest.take(i - 1));
    }
}

proof fn lemma_width_is_natural(segments: Seq<(u8, u8)>)
    ensures
        geometry::row_width(segments) >= 0,
    decreases segments.len(),
{
    if segments.len() > 0 {
        lemma_width_is_natural(segments.drop_last());
    }
}

proof fn lemma_width_from_left(segments: Seq<(u8, u8)>)
    requires
        segments.len() > 0,
    ensures
        geometry::row_width(segments) == segments[0].1 + geometry::row_width(segments.skip(1)),
    decreases segments.len(),
{
    if segments.len() == 1 {
        assert(segments.drop_last() =~= Seq::empty());
        assert(segments.skip(1) =~= Seq::empty());
        assert(geometry::row_width(segments.drop_last()) == 0);
    } else {
        lemma_width_from_left(segments.drop_last());
        assert(segments.drop_last().skip(1) =~= segments.skip(1).drop_last());
    }
}

/// The place in DDRAM that is shown `k` columns into a segment: with two lines, a segment below
/// `0x40` is taken from the first 40 bytes and one from `0x40` on from the other 40, each turned by
/// its own offset; with one line, from all 80 bytes, turned by the first offset.
pub proof fn segments_are_turned(dual_line: bool, start: u8, k: int, line_shift: [u8; 2])
    requires
        start < 0x80,
        0 <= k < 256,
    ensures
        ({
            let at = compositing::shifted(dual_line, start, k, line_shift);
            &&& dual_line && start < 0x40 ==> 0 <= at < 40 && (start + k + line_shift[0] - at) % 40
                == 0
            &&& dual_line && start >= 0x40 ==> 40 <= at < 80 && (start - 0x40 + k + line_shift[1]
                - at) % 40 == 0
            &&& !dual_line ==> 0 <= at < 80 && (start + k + line_shift[0] - at) % 80 == 0
        }),
{
}

/// The pixel in row `r` and column `c` of the cell that shows place `k` of segment `i` of row `row`
/// is lit if the display is on and bit `4 - c` of row `r` of the glyph is set, or the cursor covers
/// it; a lit pixel has the foreground color, any other the background color.
pub proof fn glyph_bits_are_pixels(s: LcdState, row: int, i: int, k: int, r: int, c: int)
    requires
        s.geometry.fits(),
        0 <= row < s.geometry.segments@.len(),
        0 <= i < s.geometry.segments@[row]@.len(),
        0 <= k < s.geometry.segments@[row]@[i].1,
        0 <= r < if s.font_5x10 { 10int } else { 8 },
        0 <= c < 5,
    ensures
        ({
            let height = if s.font_5x10 { 10int } else { 8 };
            let column = geometry::row_width(s.geometry.segments@[row]@.take(i)) + k;
            let address = compositing::shifted(
                s.geometry.dual_line(),
                s.geometry.segments@[row]@[i].0,
                k,
                s.line_shift,
            );
            let bits = compositing::glyph_row_of(
                s.ddram[address],
                r,
                s.cgram,
                s.table,
                s.font_5x10,
            );
            let at_cursor = s.cursor.visible && s.cursor.position == Some(
                (row as u8, column as u8),
            ) && (s.cursor.blinking || r == height - 1);
            let lit = s.display_on && (bits & (0x10u8 >> (c as u8)) != 0 || at_cursor);
            let at = 4 * ((height * row + r) * (5 * s.geometry.columns) + 5 * column + c);
            &&& 0 <= at <= s.frame().len() - 4
            &&& s.frame()[at] == if lit { s.foreground.r } else { s.background.r }
            &&& s.frame()[at + 1] == if lit { s.foreground.g } else { s.background.g }
            &&& s.frame()[at + 2] == if lit { s.foreground.b } else { s.background.b }
            &&& s.frame()[at + 3] == 0xFF
        }),
{
    let segments = s.geometry.segments@[row]@;
    let column = geometry::row_width(segments.take(i)) + k;
    let height = if s.font_5x10 { 10int } else { 8 };
    segments_lie_side_by_side(segments, i, k);
    lemma_width_is_natural(segments.take(i));
    assert(s.geometry.segments@[row]@ == segments);
    let x = 5 * column + c;
    let y = height * row + r;
    assert(0 <= column < s.geometry.columns);
    cells::pixel_is_four_bytes(
        s.geometry.columns * 5,
        s.geometry.rows * compositing::cell_height(s.font_5x10),
        |x: int, y: int| s.pixel_color(x, y),
        x,
        y,
    );
    assert(x / 5 == column && x % 5 == c);
    assert(y / height == row && y % height == r);
    let address = compositing::shifted(
        s.geometry.dual_line(),
        segments[i].0,
        k,
        s.line_shift,
    );
    assert(compositing::address_at(s.geometry, s.line_shift, row, column) == Some(address));
    let bits = compositing::glyph_row_of(s.ddram[address], r, s.cgram, s.table, s.font_5x10);
    let n = (4 - c) as u8;
    let m = c as u8;
    assert((bits >> n) & 1 != 0 <==> bits & (0x10u8 >> m) != 0) by (bit_vector)
        requires
            m < 5,
            n == 4 - m,
    ;
}

/// The cursor is at a cell that shows the address, and no earlier cell does; without such a cell it
/// is nowhere.
pub proof fn cursor_is_where_the_address_is_shown(
    address: int,
    g: Geometry,
    line_shift: [u8; 2],
    k: int,
)
    requires
        0 <= k < g.columns * g.rows,
    ensures
        ({
            let columns = g.columns as int;
            match compositing::position_of(address, g, line_shift) {
                Some((row, column)) => {
                    &&& column < columns
                    &&& compositing::address_at(g, line_shift, row as int, column as int) == Some(
                        address,
                    )
                    &&& k < row * columns + column ==> compositing::address_at(
                        g,
                        line_shift,
                        k / columns,
                        k % columns,
                    ) != Some(address)
                },
                None => compositing::address_at(g, line_shift, k / columns, k % columns) != Some(
                    address,
                ),
            }
        }),
{
    let columns = g.columns as int;
    assert(columns > 0) by (nonlinear_arith)
        requires
            0 <= k < columns * g.rows,
            columns >= 0,
    ;
    if exists|f: int| compositing::shows_first(g, line_shift, f, address) {
        let f = choose|f: int| compositing::shows_first(g, line_shift, f, address);
        vstd::arithmetic::div_mod::lemma_fundamental_div_mod(f, columns);
        vstd::arithmetic::div_mod::lemma_mod_bound(f, columns);
        assert(0 <= f / columns < 256) by (nonlinear_arith)
            requires
                0 <= f < columns * g.rows,
                columns > 0,
                g.rows <= 255,
        ;
        assert(f == f / columns * columns + f % columns) by (nonlinear_arith)
            requires
                f == columns * (f / columns) + f % columns,
        ;
        assert(compositing::shows(g, line_shift, f, address));
        if k < f {
            assert(!compositing::shows(g, line_shift, k, address));
        }
    } else if compositing::shows(g, line_shift, k, address) {
        lemma_first_shown(g, line_shift, k, address);
    }
}

proof fn lemma_first_shown(g: Geometry, line_shift: [u8; 2], k: int, address: int)
    requires
        0 <= k < g.columns * g.rows,
        compositing::shows(g, line_shift, k, address),
    ensures
        exists|f: int| compositing::shows_first(g, line_shift, f, address),
    decreases k,
{
    if exists|j: int| 0 <= j < k && compositing::shows(g, line_shift, j, address) {
        let j = choose|j: int| 0 <= j < k && compositing::shows(g, line_shift, j, address);
        lemma_first_shown(g, line_shift, j, address);
    } else {
        assert(compositing::shows_first(g, line_shift, k, address));
    }
}

} // verus!
