//! An 8×8, 1bpp, 256-glyph bitmap font used by the display's compositing path.
//!
//! Each glyph is 8 bytes, one byte per row, indexed top-to-bottom; within a row byte, bit `n` (from
//! the least-significant bit) is the pixel at column `n` (leftmost column is bit 0). The font is
//! indexed by the byte value stored in a device's character RAM.

use crate::display::font_data::DEFAULT_FONT;
use crate::text::append_digits;
use vstd::prelude::*;

verus! {

/// Number of glyphs in a font (one per possible character-RAM byte value).
pub const GLYPH_COUNT: usize = 256;

/// Bytes per glyph: one row per byte, 8 rows.
pub const GLYPH_BYTES: usize = 8;

/// Total size in bytes of a font's raw bitmap data.
pub const FONT_BYTES: usize = 2048;

/// An error indicating that raw font data was not exactly [`FONT_BYTES`] long.
#[derive(Debug, Clone, Copy, PartialEq, Eq, Structural)]
pub struct FontError {
    pub actual_len: usize,
}

impl FontError {
    /// What the error says of itself.
    pub fn to_string(&self) -> (s: String)
        ensures
            s@ == "font data must be exactly 2048 bytes (256 glyphs of 8 bytes each), got "@
                + crate::text::digits(self.actual_len as nat, 10),
    {
        let mut s = String::from_str(
            "font data must be exactly 2048 bytes (256 glyphs of 8 bytes each), got ",
        );
        append_digits(&mut s, self.actual_len as u64, 10);
        s
    }
}

/// An 8×8, 1bpp, 256-glyph bitmap font, viewed as its raw bitmap data.
#[derive(Debug, PartialEq, Eq)]
pub struct Font {
    data: Vec<u8>,
}

impl View for Font {
    type V = Seq<u8>;

    closed spec fn view(&self) -> Seq<u8> {
        self.data@
    }
}

/// The rows of glyph `index` in raw bitmap data.
pub open spec fn glyph_of(data: Seq<u8>, index: int) -> Seq<u8> {
    data.subrange(index * 8, index * 8 + 8)
}

/// The raw bitmap data of the bundled font.
pub closed spec fn default_font() -> Seq<u8> {
    Seq::new(2048, |i: int| DEFAULT_FONT@[i / 8]@[i % 8])
}

impl Font {
    #[verifier::type_invariant]
    spec fn full(&self) -> bool {
        self.data@.len() == FONT_BYTES
    }

    /// Builds a font from raw bytes. `data` must be exactly [`FONT_BYTES`] long.
    pub fn from_bytes(data: &[u8]) -> (r: Result<Self, FontError>)
        ensures
            match r {
                Ok(font) => data@.len() == FONT_BYTES && font@ == data@,
                Err(e) => data@.len() != FONT_BYTES && e.actual_len == data@.len(),
            },
    {
        if data.len() != FONT_BYTES {
            return Err(FontError { actual_len: data.len() });
        }
        let mut bytes: Vec<u8> = Vec::new();
        bytes.extend_from_slice(data);
        assert(bytes@ =~= data@);
        Ok(Font { data: bytes })
    }

    /// Returns the 8 row bytes for `glyph_index` (one of the 256 possible character-RAM byte
    /// values).
    pub fn glyph(&self, glyph_index: u8) -> (rows: &[u8])
        ensures
            self@.len() == FONT_BYTES,
            rows@ == glyph_of(self@, glyph_index as int),
    {
        proof {
            use_type_invariant(self);
        }
        let start: usize = glyph_index as usize * GLYPH_BYTES;
        &self.data[start..start + GLYPH_BYTES]
    }

    /// Returns row `row` of glyph `glyph_index`.
    pub fn glyph_row(&self, glyph_index: u8, row: usize) -> (bits: u8)
        requires
            row < GLYPH_BYTES,
        ensures
            self@.len() == FONT_BYTES,
            bits == glyph_of(self@, glyph_index as int)[row as int],
    {
        proof {
            use_type_invariant(self);
        }
        self.data[glyph_index as usize * GLYPH_BYTES + row]
    }

    /// Returns the raw bitmap data (all 256 glyphs, concatenated).
    pub fn as_bytes(&self) -> (bytes: &[u8])
        ensures
            bytes@ == self@,
            bytes@.len() == FONT_BYTES,
    {
        proof {
            use_type_invariant(self);
        }
        self.data.as_slice()
    }
}

impl Clone for Font {
    fn clone(&self) -> (copy: Self)
        ensures
            copy@ == self@,
    {
        proof {
            use_type_invariant(self);
        }
        let mut data: Vec<u8> = Vec::new();
        data.extend_from_slice(self.data.as_slice());
        assert(data@ =~= self.data@);
        Font { data }
    }
}

impl Default for Font {
    /// The bundled font.
    fn default() -> (font: Self)
        ensures
            font@ == default_font(),
    {
        let table = DEFAULT_FONT;
        let mut data: Vec<u8> = Vec::new();
        let mut i: usize = 0;
        while i < FONT_BYTES
            invariant
                i <= FONT_BYTES,
                data@.len() == i,
                table == DEFAULT_FONT,
                forall|k: int| 0 <= k < i ==> #[trigger] data@[k] == table@[k / 8]@[k % 8],
            decreases FONT_BYTES - i,
        {
            data.push(table[i / 8][i % 8]);
            i += 1;
        }
        assert(data@ =~= default_font());
        Font { data }
    }
}

/// Each row of the bundled font is the row of the bundled table.
pub proof fn default_font_is_the_bundled_table(glyph: int, row: int)
    requires
        0 <= glyph < GLYPH_COUNT,
        0 <= row < GLYPH_BYTES,
    ensures
        default_font().len() == FONT_BYTES,
        glyph_of(default_font(), glyph)[row] == DEFAULT_FONT@[glyph]@[row],
{
    assert((glyph * 8 + row) / 8 == glyph);
    assert((glyph * 8 + row) % 8 == row);
}

} // verus!
