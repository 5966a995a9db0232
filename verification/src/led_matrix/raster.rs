//! Where each matrix lies in the raster of the composed canvas.
//!
//! Pixel memory is one flat raster of the composed canvas, `cols * 32` pixels wide. Matrix `n`, in
//! row-major order over the arrangement grid, occupies a 32 by 32 sub-rectangle of it.

use vstd::prelude::*;

verus! {

/// Pixels per matrix: a fixed 32x32 grid, one palette-index byte per pixel.
pub const PIXELS_PER_MATRIX: usize = 1024;

/// The raster offset of the pixel at `(row, col)` of matrix `index`.
pub open spec fn raster_offset(cols: int, index: int, row: int, col: int) -> int {
    (index / cols * 32 + row) * (cols * 32) + (index % cols * 32 + col)
}

/// The matrix that owns the pixel at a raster offset.
pub open spec fn owner(cols: int, offset: int) -> int {
    offset / (cols * 32) / 32 * cols + offset % (cols * 32) / 32
}

/// The row within its matrix of the pixel at a raster offset.
pub open spec fn local_row(cols: int, offset: int) -> int {
    offset / (cols * 32) % 32
}

/// The column within its matrix of the pixel at a raster offset.
pub open spec fn local_col(cols: int, offset: int) -> int {
    offset % (cols * 32) % 32
}

/// Whether `matrices` matrices can be arranged in rows of `cols`.
pub open spec fn arranged(matrices: int, cols: int) -> bool {
    &&& 1 <= matrices <= 8
    &&& 1 <= cols <= matrices
    &&& matrices % cols == 0
}

/// A pixel of a matrix lies in the raster, and is owned by the matrix, at its own row and column.
pub proof fn raster_offset_is_owned(matrices: int, cols: int, index: int, row: int, col: int)
    requires
        arranged(matrices, cols),
        0 <= index < matrices,
        0 <= row < 32,
        0 <= col < 32,
    ensures
        0 <= raster_offset(cols, index, row, col) < matrices * 1024,
        owner(cols, raster_offset(cols, index, row, col)) == index,
        local_row(cols, raster_offset(cols, index, row, col)) == row,
        local_col(cols, raster_offset(cols, index, row, col)) == col,
{
    let width = cols * 32;
    let q = index / cols * 32 + row;
    let r = index % cols * 32 + col;
    vstd::arithmetic::div_mod::lemma_fundamental_div_mod(index, cols);
    vstd::arithmetic::div_mod::lemma_mod_bound(index, cols);
    vstd::arithmetic::div_mod::lemma_fundamental_div_mod(matrices, cols);
    assert(index / cols >= 0) by (nonlinear_arith)
        requires
            index >= 0,
            cols >= 1,
    ;
    vstd::arithmetic::div_mod::lemma_fundamental_div_mod_converse(q * width + r, width, q, r);
    let rows = matrices / cols;
    assert(index / cols < rows) by (nonlinear_arith)
        requires
            index == cols * (index / cols) + index % cols,
            0 <= index % cols,
            index < matrices,
            matrices == cols * rows,
            cols >= 1,
    ;
    assert(q * width + r < matrices * 1024) by (nonlinear_arith)
        requires
            0 <= q < rows * 32,
            0 <= r < width,
            width == cols * 32,
            matrices == cols * rows,
            cols >= 1,
    ;
    assert(q * width + r >= 0) by (nonlinear_arith)
        requires
            0 <= q,
            0 <= r,
            width >= 0,
    ;
    assert(q / 32 == index / cols);
    assert(index / cols * cols + index % cols == index) by (nonlinear_arith)
        requires
            index == cols * (index / cols) + index % cols,
    ;
}

/// Every pixel of the raster belongs to a matrix, and lies at its row and column in it.
pub proof fn every_pixel_is_owned(matrices: int, cols: int, offset: int)
    requires
        arranged(matrices, cols),
        0 <= offset < matrices * 1024,
    ensures
        0 <= owner(cols, offset) < matrices,
        0 <= local_row(cols, offset) < 32,
        0 <= local_col(cols, offset) < 32,
        raster_offset(cols, owner(cols, offset), local_row(cols, offset), local_col(cols, offset))
            == offset,
{
    let width = cols * 32;
    let q = offset / width;
    let r = offset % width;
    vstd::arithmetic::div_mod::lemma_fundamental_div_mod(offset, width);
    vstd::arithmetic::div_mod::lemma_mod_bound(offset, width);
    vstd::arithmetic::div_mod::lemma_fundamental_div_mod(matrices, cols);
    let rows = matrices / cols;
    assert(0 <= q < rows * 32) by (nonlinear_arith)
        requires
            offset == width * q + r,
            0 <= r < width,
            0 <= offset < matrices * 1024,
            width == cols * 32,
            matrices == cols * rows,
            cols >= 1,
    ;
    let grid_row = q / 32;
    let grid_col = r / 32;
    let index = grid_row * cols + grid_col;
    assert(0 <= grid_col < cols);
    assert(0 <= index < matrices) by (nonlinear_arith)
        requires
            0 <= grid_row < rows,
            0 <= grid_col < cols,
            index == grid_row * cols + grid_col,
            matrices == cols * rows,
    ;
    vstd::arithmetic::div_mod::lemma_fundamental_div_mod_converse(index, cols, grid_row, grid_col);
    assert(q * width == width * q) by (nonlinear_arith);
}

/// The pixels of matrix `index`, gathered out of the raster in row-major order.
pub open spec fn block_of(raster: Seq<u8>, cols: int, index: int) -> Seq<u8> {
    Seq::new(1024, |i: int| raster[raster_offset(cols, index, i / 32, i % 32)])
}

/// A raster with the pixels of matrix `index` taken from another.
pub open spec fn block_copied(to: Seq<u8>, from: Seq<u8>, cols: int, index: int) -> Seq<u8> {
    Seq::new(
        to.len(),
        |offset: int|
            if owner(cols, offset) == index {
                from[offset]
            } else {
                to[offset]
            },
    )
}

/// The first raster offset of row `row` of matrix `index`.
pub fn row_start(matrices: u32, cols: u32, index: u32, row: usize) -> (start: usize)
    requires
        arranged(matrices as int, cols as int),
        index < matrices,
        row < 32,
    ensures
        start == raster_offset(cols as int, index as int, row as int, 0),
        start + 32 <= matrices * 1024,
{
    proof {
        raster_offset_is_owned(
            matrices as int,
            cols as int,
            index as int,
            row as int,
            31,
        );
        let q = index as int / cols as int * 32 + row;
        assert(q * (cols * 32) + 0 <= q * (cols * 32) + (index as int % cols as int * 32 + 31));
        assert(0 <= q * (cols * 32)) by (nonlinear_arith)
            requires
                q >= 0,
                cols >= 0,
        ;
    }
    let width: usize = cols as usize * 32;
    let matrix_row: usize = (index / cols) as usize;
    let matrix_col: usize = (index % cols) as usize;
    (matrix_row * 32 + row) * width + matrix_col * 32
}

/// Gathers the pixels of matrix `index` out of the raster.
pub fn gather(raster: &[u8], matrices: u32, cols: u32, index: u32) -> (block: Vec<u8>)
    requires
        arranged(matrices as int, cols as int),
        index < matrices,
        raster@.len() == matrices * 1024,
    ensures
        block@ == block_of(raster@, cols as int, index as int),
{
    let mut block: Vec<u8> = Vec::new();
    let mut row: usize = 0;
    while row < 32
        invariant
            row <= 32,
            arranged(matrices as int, cols as int),
            index < matrices,
            raster@.len() == matrices * 1024,
            block@.len() == row * 32,
            forall|i: int|
                0 <= i < row * 32 ==> #[trigger] block@[i] == block_of(
                    raster@,
                    cols as int,
                    index as int,
                )[i],
        decreases 32 - row,
    {
        let start: usize = row_start(matrices, cols, index, row);
        let mut col: usize = 0;
        while col < 32
            invariant
                col <= 32,
                row < 32,
                matrices <= 8,
                start == raster_offset(cols as int, index as int, row as int, 0),
                start + 32 <= matrices * 1024,
                raster@.len() == matrices * 1024,
                block@.len() == row * 32 + col,
                forall|i: int|
                    0 <= i < row * 32 + col ==> #[trigger] block@[i] == block_of(
                        raster@,
                        cols as int,
                        index as int,
                    )[i],
            decreases 32 - col,
        {
            block.push(raster[start + col]);
            proof {
                let i = row * 32 + col;
                assert(i / 32 == row && i % 32 == col);
                assert(block_of(raster@, cols as int, index as int)[i] == raster@[start + col]);
            }
            col += 1;
        }
        row += 1;
    }
    assert(block@ =~= block_of(raster@, cols as int, index as int));
    block
}

/// The matrix that owns the pixel at a raster offset.
pub fn owner_of(matrices: u32, cols: u32, offset: usize) -> (index: u32)
    requires
        arranged(matrices as int, cols as int),
        offset < matrices * 1024,
    ensures
        index == owner(cols as int, offset as int),
        index < matrices,
{
    proof {
        every_pixel_is_owned(matrices as int, cols as int, offset as int);
        let width = cols as int * 32;
        let grid_row = offset as int / width / 32;
        assert(0 <= offset as int / width) by (nonlinear_arith)
            requires
                offset >= 0,
                width >= 1,
        ;
        assert(0 <= grid_row * cols) by (nonlinear_arith)
            requires
                grid_row >= 0,
                cols >= 0,
        ;
        vstd::arithmetic::div_mod::lemma_mod_bound(offset as int, width);
    }
    let width: usize = cols as usize * 32;
    let matrix_row: usize = offset / width / 32;
    let matrix_col: usize = offset % width / 32;
    (matrix_row * cols as usize + matrix_col) as u32
}

/// Copies the pixels of matrix `index` from one raster to another, row by row.
pub fn copy_block(to: &mut Vec<u8>, from: &Vec<u8>, matrices: u32, cols: u32, index: u32)
    requires
        arranged(matrices as int, cols as int),
        index < matrices,
        old(to)@.len() == matrices * 1024,
        from@.len() == matrices * 1024,
    ensures
        final(to)@ == block_copied(old(to)@, from@, cols as int, index as int),
{
    let ghost c = cols as int;
    let ghost n = index as int;
    let mut row: usize = 0;
    while row < 32
        invariant
            row <= 32,
            c == cols,
            n == index,
            arranged(matrices as int, c),
            0 <= n < matrices,
            to@.len() == matrices * 1024,
            old(to)@.len() == matrices * 1024,
            from@.len() == matrices * 1024,
            forall|o: int|
                0 <= o < matrices * 1024 ==> #[trigger] to@[o] == if owner(c, o) == n
                    && local_row(c, o) < row {
                    from@[o]
                } else {
                    old(to)@[o]
                },
        decreases 32 - row,
    {
        let start: usize = row_start(matrices, cols, index, row);
        let mut col: usize = 0;
        while col < 32
            invariant
                col <= 32,
                row < 32,
                c == cols,
                n == index,
                arranged(matrices as int, c),
                0 <= n < matrices,
                start == raster_offset(c, n, row as int, 0),
                start + 32 <= matrices * 1024,
                to@.len() == matrices * 1024,
                old(to)@.len() == matrices * 1024,
                from@.len() == matrices * 1024,
                forall|o: int|
                    0 <= o < matrices * 1024 ==> #[trigger] to@[o] == if owner(c, o) == n && (
                    local_row(c, o) < row || local_row(c, o) == row && local_col(c, o) < col) {
                        from@[o]
                    } else {
                        old(to)@[o]
                    },
            decreases 32 - col,
        {
            let ghost before = to@;
            to[start + col] = from[start + col];
            proof {
                raster_offset_is_owned(matrices as int, c, n, row as int, col as int);
                assert(start + col == raster_offset(c, n, row as int, col as int));
                assert forall|o: int| 0 <= o < matrices * 1024 implies #[trigger] to@[o] == if owner(
                    c,
                    o,
                ) == n && (local_row(c, o) < row || local_row(c, o) == row && local_col(c, o) < col
                    + 1) {
                    from@[o]
                } else {
                    old(to)@[o]
                } by {
                    every_pixel_is_owned(matrices as int, c, o);
                    if o != start + col {
                        assert(to@[o] == before[o]);
                    }
                }
            }
            col += 1;
        }
        proof {
            assert forall|o: int| 0 <= o < matrices * 1024 implies #[trigger] to@[o] == if owner(
                c,
                o,
            ) == n && local_row(c, o) < row + 1 {
                from@[o]
            } else {
                old(to)@[o]
            } by {
                every_pixel_is_owned(matrices as int, c, o);
            }
        }
        row += 1;
    }
    proof {
        assert forall|o: int| 0 <= o < matrices * 1024 implies to@[o] == block_copied(
            old(to)@,
            from@,
            c,
            n,
        )[o] by {
            every_pixel_is_owned(matrices as int, c, o);
        }
        assert(to@ =~= block_copied(old(to)@, from@, c, n));
    }
}

/// After a copy, the matrix shows what it was copied from, and every other matrix what it showed
/// before.
pub proof fn copied_block_shows(
    to: Seq<u8>,
    from: Seq<u8>,
    matrices: int,
    cols: int,
    index: int,
    other: int,
)
    requires
        arranged(matrices, cols),
        0 <= index < matrices,
        0 <= other < matrices,
        to.len() == matrices * 1024,
        from.len() == matrices * 1024,
    ensures
        block_of(block_copied(to, from, cols, index), cols, other) == if other == index {
            block_of(from, cols, other)
        } else {
            block_of(to, cols, other)
        },
{
    let copied = block_copied(to, from, cols, index);
    let expected = if other == index {
        block_of(from, cols, other)
    } else {
        block_of(to, cols, other)
    };
    assert forall|i: int| 0 <= i < 1024 implies block_of(copied, cols, other)[i] == expected[i] by {
        raster_offset_is_owned(matrices, cols, other, i / 32, i % 32);
    }
    assert(block_of(copied, cols, other) =~= expected);
}

/// In a single-column arrangement the matrices follow one another in the raster.
pub proof fn single_column_is_contiguous(index: int, row: int, col: int)
    requires
        0 <= index,
        0 <= row < 32,
        0 <= col < 32,
    ensures
        raster_offset(1, index, row, col) == index * 1024 + row * 32 + col,
{
    assert(index / 1 == index && index % 1 == 0) by (nonlinear_arith);
    assert((index * 32 + row) * (1 * 32) == index * 1024 + row * 32) by (nonlinear_arith);
}

/// The canvas is one raster of rows that are as wide as all matrices of a grid row together. The pixel
/// at `(row, col)` of the matrix in grid row `down` and grid column `across`, counted along the grid
/// rows, is in canvas row `32 * down + row` and canvas column `32 * across + col`.
pub proof fn matrices_tile_the_canvas(
    raster: Seq<u8>,
    cols: int,
    down: int,
    across: int,
    row: int,
    col: int,
)
    requires
        1 <= cols,
        0 <= down,
        0 <= across < cols,
        0 <= row < 32,
        0 <= col < 32,
    ensures
        ({
            let at = (32 * down + row) * (32 * cols) + (32 * across + col);
            let matrix = down * cols + across;
            &&& owner(cols, at) == matrix
            &&& block_of(raster, cols, matrix).len() == 1024
            &&& block_of(raster, cols, matrix)[32 * row + col] == raster[at]
        }),
{
    let width = cols * 32;
    let y = 32 * down + row;
    let x = 32 * across + col;
    let at = y * width + x;
    let matrix = down * cols + across;
    vstd::arithmetic::div_mod::lemma_fundamental_div_mod_converse(at, width, y, x);
    vstd::arithmetic::div_mod::lemma_fundamental_div_mod_converse(matrix, cols, down, across);
    assert(y / 32 == down && x / 32 == across);
    assert((32 * row + col) / 32 == row && (32 * row + col) % 32 == col);
}

} // verus!
