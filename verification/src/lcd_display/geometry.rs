//! The physical character grids.

use vstd::prelude::*;

verus! {

/// A physical character grid: visible rows, each composed of one or more DDRAM segments given by
/// raw address and visible width.
pub struct Geometry {
    pub rows: u8,
    pub columns: u8,
    pub segments: &'static [&'static [(u8, u8)]],
}

/// Visible width of a row of segments.
pub open spec fn row_width(segments: Seq<(u8, u8)>) -> int
    decreases segments.len(),
{
    if segments.len() == 0 {
        0
    } else {
        row_width(segments.drop_last()) + segments.last().1
    }
}

impl Geometry {
    /// Whether any segment lies in the second half of DDRAM.
    pub open spec fn dual_line(self) -> bool {
        exists|row: int, i: int|
            0 <= row < self.segments@.len() && 0 <= i < self.segments@[row]@.len() && (
            #[trigger] self.segments@[row]@[i]).0 >= 0x40
    }

    /// Whether every segment lies within the grid.
    pub open spec fn fits(self) -> bool {
        &&& self.segments@.len() <= self.rows
        &&& forall|row: int|
            0 <= row < self.segments@.len() ==> row_width((#[trigger] self.segments@[row])@)
                <= self.columns
    }

    /// Whether DDRAM is addressed as two lines of 40 bytes: true unless every segment stays within
    /// the first half.
    pub fn is_dual_line(&self) -> (dual: bool)
        ensures
            dual == self.dual_line(),
    {
        let mut row: usize = 0;
        while row < self.segments.len()
            invariant
                row <= self.segments@.len(),
                forall|r: int, i: int|
                    0 <= r < row && 0 <= i < self.segments@[r]@.len() ==> (
                    #[trigger] self.segments@[r]@[i]).0 < 0x40,
            decreases self.segments@.len() - row,
        {
            let segments = self.segments[row];
            let mut i: usize = 0;
            while i < segments.len()
                invariant
                    row < self.segments@.len(),
                    segments@ == self.segments@[row as int]@,
                    i <= segments@.len(),
                    forall|k: int| 0 <= k < i ==> (#[trigger] segments@[k]).0 < 0x40,
                decreases segments@.len() - i,
            {
                let (start, _) = segments[i];
                if start >= 0x40 {
                    assert(self.segments@[row as int]@[i as int].0 >= 0x40);
                    return true;
                }
                i += 1;
            }
            row += 1;
        }
        false
    }
}

/// A grid has one line exactly if all its segments start below `0x40`.
pub proof fn lines_of_a_grid(g: Geometry)
    ensures
        !g.dual_line() <==> forall|row: int, i: int|
            0 <= row < g.segments@.len() && 0 <= i < g.segments@[row]@.len() ==> (
            #[trigger] g.segments@[row]@[i]).0 < 0x40,
{
}

/// The width of a row is the sum of the widths of its segments, in whatever parts it is taken.
pub proof fn widths_add_up(a: Seq<(u8, u8)>, b: Seq<(u8, u8)>)
    ensures
        row_width(a + b) == row_width(a) + row_width(b),
        a.len() == 1 ==> row_width(a) == a[0].1,
    decreases b.len(),
{
    if a.len() == 1 {
        assert(row_width(a.drop_last()) == 0);
    }
    if b.len() == 0 {
        assert(a + b =~= a);
    } else {
        widths_add_up(a, b.drop_last());
        assert((a + b).drop_last() =~= a + b.drop_last());
    }
}

} // verus!
