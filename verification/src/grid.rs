//! The layout and colouring of a grid of values.
//!
//! A time slice holds its cells row by row. The cell at index `i` of a grid
//! with `ncols` columns lies in row `i / ncols` and column `i % ncols`. A cell
//! is coloured on a red and green gradient by its value; the fill value marks a
//! cell without a measurement, which is left transparent.

use vstd::prelude::*;

verus! {

/// The value that marks a cell without a measurement.
pub const FILL_VALUE: i32 = 254;

/// The row of the cell at `index` in a grid of `ncols` columns.
pub open spec fn row_of(index: int, ncols: int) -> int {
    index / ncols
}

/// The column of the cell at `index` in a grid of `ncols` columns.
pub open spec fn col_of(index: int, ncols: int) -> int {
    index % ncols
}

/// The index of the cell in `row` and `col` of a grid of `ncols` columns.
pub open spec fn index_of(row: int, col: int, ncols: int) -> int {
    row * ncols + col
}

/// The row and column of the cell at `index`, for an index inside a grid of
/// `nrows` by `ncols` cells.
pub open spec fn spec_cell_position(index: int, nrows: int, ncols: int) -> Option<(int, int)> {
    if 0 <= index < nrows * ncols {
        Some((row_of(index, ncols), col_of(index, ncols)))
    } else {
        None
    }
}

/// Every index of a grid has a cell inside the grid, every cell inside the
/// grid has an index, and the two mappings undo each other: the position
/// mapping is a bijection between the indices below `nrows * ncols` and the
/// cells of the grid.
pub proof fn lemma_position_bijective(nrows: int, ncols: int)
    requires
        0 <= nrows,
        0 <= ncols,
    ensures
        forall|i: int|
            0 <= i < nrows * ncols ==> {
                &&& 0 <= #[trigger] row_of(i, ncols) < nrows
                &&& 0 <= col_of(i, ncols) < ncols
                &&& index_of(row_of(i, ncols), col_of(i, ncols), ncols) == i
            },
        forall|r: int, c: int|
            0 <= r < nrows && 0 <= c < ncols ==> {
                &&& 0 <= #[trigger] index_of(r, c, ncols) < nrows * ncols
                &&& row_of(index_of(r, c, ncols), ncols) == r
                &&& col_of(index_of(r, c, ncols), ncols) == c
            },
{
    assert forall|i: int| 0 <= i < nrows * ncols implies {
        &&& 0 <= #[trigger] row_of(i, ncols) < nrows
        &&& 0 <= col_of(i, ncols) < ncols
        &&& index_of(row_of(i, ncols), col_of(i, ncols), ncols) == i
    } by {
        lemma_index_to_cell(i, nrows, ncols);
    }
    assert forall|r: int, c: int| 0 <= r < nrows && 0 <= c < ncols implies {
        &&& 0 <= #[trigger] index_of(r, c, ncols) < nrows * ncols
        &&& row_of(index_of(r, c, ncols), ncols) == r
        &&& col_of(index_of(r, c, ncols), ncols) == c
    } by {
        lemma_cell_to_index(r, c, nrows, ncols);
    }
}

/// An index of the grid has its cell inside the grid, and the cell's index is
/// the index again.
pub proof fn lemma_index_to_cell(i: int, nrows: int, ncols: int)
    requires
        0 <= nrows,
        0 <= ncols,
        0 <= i < nrows * ncols,
    ensures
        0 <= row_of(i, ncols) < nrows,
        0 <= col_of(i, ncols) < ncols,
        index_of(row_of(i, ncols), col_of(i, ncols), ncols) == i,
{
    assert(ncols > 0) by (nonlinear_arith)
        requires
            0 <= ncols,
            0 <= i < nrows * ncols,
    ;
    let q = i / ncols;
    let r = i % ncols;
    assert(i == q * ncols + r && 0 <= r < ncols) by (nonlinear_arith)
        requires
            ncols > 0,
            q == i / ncols,
            r == i % ncols,
    ;
    assert(0 <= q < nrows) by (nonlinear_arith)
        requires
            ncols > 0,
            0 <= nrows,
            0 <= r < ncols,
            i == q * ncols + r,
            0 <= i < nrows * ncols,
    ;
}

/// A cell of the grid has its index inside the grid, and the index's cell is
/// the cell again.
pub proof fn lemma_cell_to_index(r: int, c: int, nrows: int, ncols: int)
    requires
        0 <= r < nrows,
        0 <= c < ncols,
    ensures
        0 <= index_of(r, c, ncols) < nrows * ncols,
        row_of(index_of(r, c, ncols), ncols) == r,
        col_of(index_of(r, c, ncols), ncols) == c,
{
    let i = r * ncols + c;
    assert(0 <= i < nrows * ncols) by (nonlinear_arith)
        requires
            0 <= r < nrows,
            0 <= c < ncols,
            i == r * ncols + c,
    ;
    vstd::arithmetic::div_mod::lemma_fundamental_div_mod_converse(i, ncols, r, c);
}

/// The row and column of the cell at `index` of a grid of `nrows` by `ncols`
/// cells, or `None` where the grid has no such cell.
pub fn cell_position(index: usize, nrows: usize, ncols: usize) -> (cell: Option<(usize, usize)>)
    ensures
        match spec_cell_position(index as int, nrows as int, ncols as int) {
            Some((row, col)) => cell == Some((row as usize, col as usize)),
            None => cell is None,
        },
{
    if ncols == 0 {
        assert(nrows * ncols == 0) by (nonlinear_arith)
            requires
                ncols == 0,
        ;
        return None;
    }
    let row = index / ncols;
    let col = index % ncols;
    proof {
        let (i, n, m) = (index as int, nrows as int, ncols as int);
        if i < n * m {
            lemma_index_to_cell(i, n, m);
        } else {
            assert(i == row * m + col && 0 <= col < m) by (nonlinear_arith)
                requires
                    m > 0,
                    row == i / m,
                    col == i % m,
            ;
            assert(row >= n) by (nonlinear_arith)
                requires
                    m > 0,
                    0 <= col < m,
                    i == row * m + col,
                    i >= n * m,
            ;
        }
    }
    if row < nrows {
        Some((row, col))
    } else {
        None
    }
}

/// A colour: red, green, blue and opacity.
#[derive(Debug, Clone, Copy, PartialEq, Eq, Structural)]
pub struct Rgba {
    pub red: u8,
    pub green: u8,
    pub blue: u8,
    pub alpha: u8,
}

/// The colour that shows nothing.
pub open spec fn spec_transparent() -> Rgba {
    Rgba { red: 0, green: 0, blue: 0, alpha: 0 }
}

/// The colour that shows nothing.
#[verifier::when_used_as_spec(spec_transparent)]
pub fn transparent() -> (color: Rgba)
    ensures
        color == spec_transparent(),
{
    Rgba { red: 0, green: 0, blue: 0, alpha: 0 }
}

/// The place of `value` on the gradient: the value itself from 0 to 255, and
/// the nearer end for a value outside.
pub open spec fn level(value: int) -> int {
    if value < 0 {
        0
    } else if value > 255 {
        255
    } else {
        value
    }
}

/// The colour of a cell that holds `value`: transparent for the fill value,
/// else opaque, with as much red as the value's level and as much green as is
/// left to 255.
pub open spec fn spec_cell_color(value: int) -> Rgba {
    if value == FILL_VALUE {
        spec_transparent()
    } else {
        Rgba { red: level(value) as u8, green: (255 - level(value)) as u8, blue: 0, alpha: 255 }
    }
}

/// The colour of a cell that holds `value`.
pub fn cell_color(value: i32) -> (color: Rgba)
    ensures
        color == spec_cell_color(value as int),
{
    if value == FILL_VALUE {
        transparent()
    } else if value < 0 {
        Rgba { red: 0, green: 255, blue: 0, alpha: 255 }
    } else if value > 255 {
        Rgba { red: 255, green: 0, blue: 0, alpha: 255 }
    } else {
        let red = value as u8;
        Rgba { red, green: 255 - red, blue: 0, alpha: 255 }
    }
}

/// The colours of the cells of a time slice, cell by cell.
pub open spec fn spec_colors(data: Seq<i32>) -> Seq<Rgba> {
    Seq::new(data.len(), |i: int| spec_cell_color(data[i] as int))
}

/// A cell that holds the fill value is transparent, whatever the other cells
/// of its time slice hold.
pub proof fn lemma_fill_is_transparent(data: Seq<i32>, i: int)
    requires
        0 <= i < data.len(),
        data[i] == FILL_VALUE,
    ensures
        spec_colors(data)[i] == spec_transparent(),
        spec_colors(data)[i].alpha == 0,
{
}

/// Only the fill value is transparent: every other value is opaque.
pub proof fn lemma_measured_is_opaque(value: int)
    requires
        value != FILL_VALUE,
    ensures
        spec_cell_color(value).alpha == 255,
{
}

/// From 0 to 255, the fill value left out, a greater value has strictly more
/// red and strictly less green.
pub proof fn lemma_color_monotonic(low: int, high: int)
    requires
        0 <= low < high <= 255,
        low != FILL_VALUE,
        high != FILL_VALUE,
    ensures
        spec_cell_color(low).red < spec_cell_color(high).red,
        spec_cell_color(low).green > spec_cell_color(high).green,
{
}

/// One cell as it is to be drawn: where it lies and in which colour.
#[derive(Debug, Clone, Copy, PartialEq, Eq, Structural)]
pub struct Tile {
    pub row: usize,
    pub col: usize,
    pub color: Rgba,
}

/// The tile of the cell at `index` that holds `value`, in a grid of `ncols`
/// columns.
pub open spec fn spec_tile(index: int, value: i32, ncols: int) -> Tile {
    Tile {
        row: row_of(index, ncols) as usize,
        col: col_of(index, ncols) as usize,
        color: spec_cell_color(value as int),
    }
}

/// The tiles of a time slice of `nrows` by `ncols` cells, in the order of its
/// cells; `None` where the slice does not hold exactly one value for each
/// cell of the grid.
pub fn tiles(data: &Vec<i32>, nrows: usize, ncols: usize) -> (drawn: Option<Vec<Tile>>)
    ensures
        drawn is Some <==> data@.len() == nrows * ncols,
        drawn matches Some(list) ==> {
            &&& list@.len() == data@.len()
            &&& forall|i: int|
                0 <= i < list@.len() ==> #[trigger] list@[i] == spec_tile(
                    i,
                    data@[i],
                    ncols as int,
                )
        },
{
    let len = data.len();
    let cells = match nrows.checked_mul(ncols) {
        Some(cells) => cells,
        None => {
            return None;
        },
    };
    if len != cells {
        return None;
    }
    let mut list: Vec<Tile> = Vec::new();
    let mut index: usize = 0;
    while index < data.len()
        invariant
            index <= data@.len(),
            data@.len() == nrows * ncols,
            list@.len() == index,
            forall|i: int|
                0 <= i < index ==> #[trigger] list@[i] == spec_tile(i, data@[i], ncols as int),
        decreases data@.len() - index,
    {
        proof {
            lemma_index_to_cell(index as int, nrows as int, ncols as int);
        }
        let tile = Tile {
            row: index / ncols,
            col: index % ncols,
            color: cell_color(data[index]),
        };
        list.push(tile);
        index += 1;
    }
    Some(list)
}

} // verus!
