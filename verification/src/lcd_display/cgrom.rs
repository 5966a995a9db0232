//! The HD44780 character generator ROM (CGROM): a fixed table mapping a DDRAM byte value to that
//! glyph's row bytes.
//!
//! Glyphs `0x00..=0xDF` are 5 x 8 dots, and the last 32, `0xE0..=0xFF`, are 5 x 10 dots. The first
//! 16 are aliases of CGRAM and never drawn from this table.

use crate::lcd_display::cgrom_data::{A00_EXTENDED, A00_STANDARD, A02_EXTENDED, A02_STANDARD};
use crate::text::append_digits;
use vstd::prelude::*;

verus! {

/// Rows stored per glyph in the table's standard range.
pub const ROWS_PER_GLYPH: usize = 8;

/// Rows stored per glyph in the table's extended range.
pub const EXTENDED_ROWS_PER_GLYPH: usize = 10;

/// First code point of the table's 32-glyph extended range.
pub const EXTENDED_RANGE_START: u8 = 0xE0;

/// Number of glyphs: one per possible DDRAM byte value.
pub const GLYPH_COUNT: usize = 256;

/// Number of glyphs in the table's extended range.
pub const EXTENDED_GLYPH_COUNT: usize = 32;

/// Number of glyphs in the table's standard range.
pub const STANDARD_GLYPH_COUNT: usize = 224;

/// Total size in bytes of a table's raw data: the standard glyphs of 8 bytes each, followed by the
/// extended ones of 10 bytes each.
pub const CGROM_BYTES: usize = 2112;

/// Where glyph `index` starts in a table's raw data.
pub open spec fn glyph_start(index: u8) -> int {
    if index >= EXTENDED_RANGE_START {
        STANDARD_GLYPH_COUNT * ROWS_PER_GLYPH + (index - EXTENDED_RANGE_START)
            * EXTENDED_ROWS_PER_GLYPH
    } else {
        index * ROWS_PER_GLYPH
    }
}

/// How many rows glyph `index` has.
pub open spec fn glyph_height(index: u8) -> int {
    if index >= EXTENDED_RANGE_START {
        EXTENDED_ROWS_PER_GLYPH as int
    } else {
        ROWS_PER_GLYPH as int
    }
}

/// The rows of glyph `index` in a table's raw data.
pub open spec fn glyph_of(data: Seq<u8>, index: u8) -> Seq<u8> {
    data.subrange(glyph_start(index), glyph_start(index) + glyph_height(index))
}

fn glyph_location(index: u8) -> (at: (usize, usize))
    ensures
        at.0 == glyph_start(index),
        at.1 == glyph_height(index),
        at.0 + at.1 <= CGROM_BYTES,
{
    if index >= EXTENDED_RANGE_START {
        let extended_index: usize = (index - EXTENDED_RANGE_START) as usize;
        (
            STANDARD_GLYPH_COUNT * ROWS_PER_GLYPH + extended_index * EXTENDED_ROWS_PER_GLYPH,
            EXTENDED_ROWS_PER_GLYPH,
        )
    } else {
        (index as usize * ROWS_PER_GLYPH, ROWS_PER_GLYPH)
    }
}

/// An error indicating that raw CGROM data was not exactly [`CGROM_BYTES`] long.
#[derive(Debug, Clone, Copy, PartialEq, Eq, Structural)]
pub struct CgRomError {
    pub actual_len: usize,
}

impl CgRomError {
    /// What the error says of itself.
    pub fn to_string(&self) -> (s: String)
        ensures
            s@
                == "CGROM data must be exactly 2112 bytes (224 glyphs of 8 bytes each, plus 32 glyphs of 10 bytes each starting at 0xE0), got "@
                + crate::text::digits(self.actual_len as nat, 10),
    {
        let mut s = String::from_str(
            "CGROM data must be exactly 2112 bytes (224 glyphs of 8 bytes each, plus 32 glyphs of 10 bytes each starting at 0xE0), got ",
        );
        append_digits(&mut s, self.actual_len as u64, 10);
        s
    }
}

/// A fixed, 256-glyph HD44780 character generator ROM table, viewed as its raw data.
#[derive(Debug, PartialEq, Eq)]
pub struct CgRom {
    data: Vec<u8>,
}

impl View for CgRom {
    type V = Seq<u8>;

    closed spec fn view(&self) -> Seq<u8> {
        self.data@
    }
}

/// The raw data of the bundled A00 table.
pub closed spec fn a00_table() -> Seq<u8> {
    table_of(A00_STANDARD, A00_EXTENDED)
}

/// The raw data of the bundled A02 table.
pub closed spec fn a02_table() -> Seq<u8> {
    table_of(A02_STANDARD, A02_EXTENDED)
}

/// Raw data made of the rows of all standard glyphs, then those of all extended ones.
pub open spec fn table_of(standard: [[u8; 8]; 224], extended: [[u8; 10]; 32]) -> Seq<u8> {
    Seq::new(
        2112,
        |i: int|
            if i < 1792 {
                standard@[i / 8]@[i % 8]
            } else {
                extended@[(i - 1792) / 10]@[(i - 1792) % 10]
            },
    )
}

fn build_table(standard: &[[u8; 8]; 224], extended: &[[u8; 10]; 32]) -> (data: Vec<u8>)
    ensures
        data@ == table_of(*standard, *extended),
{
    let mut data: Vec<u8> = Vec::new();
    let mut i: usize = 0;
    while i < 1792
        invariant
            i <= 1792,
            data@.len() == i,
            forall|k: int| 0 <= k < i ==> #[trigger] data@[k] == table_of(*standard, *extended)[k],
        decreases 1792 - i,
    {
        data.push(standard[i / 8][i % 8]);
        i += 1;
    }
    let mut j: usize = 0;
    while j < 320
        invariant
            j <= 320,
            data@.len() == 1792 + j,
            forall|k: int|
                0 <= k < 1792 + j ==> #[trigger] data@[k] == table_of(*standard, *extended)[k],
        decreases 320 - j,
    {
        data.push(extended[j / 10][j % 10]);
        j += 1;
    }
    assert(data@ =~= table_of(*standard, *extended));
    data
}

impl CgRom {
    #[verifier::type_invariant]
    spec fn full(&self) -> bool {
        self.data@.len() == CGROM_BYTES
    }

    /// Builds a table from raw bytes. `data` must be exactly [`CGROM_BYTES`] long.
    pub fn from_bytes(data: &[u8]) -> (r: Result<Self, CgRomError>)
        ensures
            match r {
                Ok(table) => data@.len() == CGROM_BYTES && table@ == data@,
                Err(e) => data@.len() != CGROM_BYTES && e.actual_len == data@.len(),
            },
    {
        if data.len() != CGROM_BYTES {
            return Err(CgRomError { actual_len: data.len() });
        }
        let mut bytes: Vec<u8> = Vec::new();
        bytes.extend_from_slice(data);
        assert(bytes@ =~= data@);
        Ok(CgRom { data: bytes })
    }

    /// Returns the row bytes for `index` (the DDRAM byte value being resolved): 8 bytes for
    /// `index < EXTENDED_RANGE_START`, 10 for the others.
    pub fn glyph(&self, index: u8) -> (rows: &[u8])
        ensures
            self@.len() == CGROM_BYTES,
            rows@ == glyph_of(self@, index),
    {
        proof {
            use_type_invariant(self);
        }
        let (offset, len) = glyph_location(index);
        &self.data[offset..offset + len]
    }

    /// Returns the raw, `CGROM_BYTES`-long table data (all 256 glyphs, concatenated).
    pub fn as_bytes(&self) -> (bytes: &[u8])
        ensures
            bytes@ == self@,
            bytes@.len() == CGROM_BYTES,
    {
        proof {
            use_type_invariant(self);
        }
        self.data.as_slice()
    }

    /// The bundled "A00" (Japanese standard font) table, the ROM code most HD44780 clones ship
    /// with.
    pub fn a00() -> (table: Self)
        ensures
            table@ == a00_table(),
    {
        let data = build_table(&A00_STANDARD, &A00_EXTENDED);
        CgRom { data }
    }

    /// The bundled "A02" (European standard font) table.
    pub fn a02() -> (table: Self)
        ensures
            table@ == a02_table(),
    {
        let data = build_table(&A02_STANDARD, &A02_EXTENDED);
        CgRom { data }
    }
}

impl Clone for CgRom {
    fn clone(&self) -> (copy: Self)
        ensures
            copy@ == self@,
    {
        proof {
            use_type_invariant(self);
        }
        let mut data: Vec<u8> = Vec::new();
        data.extend_from_slice(self.data.as_slice());
        assert(data@ =~= self.data@);
        CgRom { data }
    }
}

impl Default for CgRom {
    /// The bundled "A00" table.
    fn default() -> (table: Self)
        ensures
            table@ == a00_table(),
    {
        Self::a00()
    }
}

/// Each row of the bundled A00 table is the row of the bundled data.
pub proof fn a00_is_the_bundled_table(index: u8, row: int)
    requires
        0 <= row < glyph_height(index),
    ensures
        glyph_of(a00_table(), index)[row] == if index >= EXTENDED_RANGE_START {
            A00_EXTENDED@[index - EXTENDED_RANGE_START]@[row]
        } else {
            A00_STANDARD@[index as int]@[row]
        },
{
}

/// Each row of the bundled A02 table is the row of the bundled data.
pub proof fn a02_is_the_bundled_table(index: u8, row: int)
    requires
        0 <= row < glyph_height(index),
    ensures
        glyph_of(a02_table(), index)[row] == if index >= EXTENDED_RANGE_START {
            A02_EXTENDED@[index - EXTENDED_RANGE_START]@[row]
        } else {
            A02_STANDARD@[index as int]@[row]
        },
{
}

} // verus!
