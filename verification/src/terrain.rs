//! The layout of the terrain: a square grid of equal chunks around the
//! terrain's centre.
use vstd::prelude::*;
use vstd::arithmetic::div_mod::lemma_fundamental_div_mod_converse;

verus! {

/// The grid cell of the `i`-th chunk of a grid of `chunk_grid` by
/// `chunk_grid` chunks: chunks run along a row (x) first, then row by row (y).
pub open spec fn chunk_cell(chunk_grid: int, i: int) -> (int, int) {
    (i % chunk_grid, i / chunk_grid)
}

/// The number of chunks in a grid of `chunk_grid` by `chunk_grid` chunks.
pub open spec fn chunk_count(chunk_grid: int) -> int {
    if chunk_grid <= 0 { 0 } else { chunk_grid * chunk_grid }
}

proof fn lemma_cell_of_index(g: int, y: int, x: int)
    requires
        g > 0,
        0 <= x < g,
        0 <= y,
    ensures
        chunk_cell(g, y * g + x) == (x, y),
{
    lemma_fundamental_div_mod_converse(y * g + x, g, y, x);
}

/// The grid cells (x, y) of the chunks of a terrain, in the order in which
/// the terrain lays its chunks out; a grid size of zero or less has no chunks.
pub fn chunk_grid_cells(chunk_grid: i32) -> (cells: Vec<(i32, i32)>)
    requires
        chunk_grid * chunk_grid <= i32::MAX,
    ensures
        cells@.len() == chunk_count(chunk_grid as int),
        forall|i: int|
            0 <= i < cells@.len() ==> (#[trigger] cells@[i].0 as int, cells@[i].1 as int) == chunk_cell(
                chunk_grid as int,
                i,
            ),
{
    let mut cells: Vec<(i32, i32)> = Vec::new();
    if chunk_grid <= 0 {
        return cells;
    }
    let g = chunk_grid;
    let mut y: i32 = 0;
    while y < g
        invariant
            0 < g,
            g * g <= i32::MAX,
            0 <= y <= g,
            cells@.len() == y * g,
            forall|i: int|
                0 <= i < cells@.len() ==> (#[trigger] cells@[i].0 as int, cells@[i].1 as int) == chunk_cell(
                    g as int,
                    i,
                ),
        decreases g - y,
    {
        let mut x: i32 = 0;
        while x < g
            invariant
                0 < g,
                0 <= y < g,
                0 <= x <= g,
                cells@.len() == y * g + x,
                forall|i: int|
                    0 <= i < cells@.len() ==> (#[trigger] cells@[i].0 as int, cells@[i].1 as int)
                        == chunk_cell(g as int, i),
            decreases g - x,
        {
            proof {
                lemma_cell_of_index(g as int, y as int, x as int);
            }
            cells.push((x, y));
            x = x + 1;
        }
        assert(cells@.len() == (y + 1) * g) by (nonlinear_arith)
            requires
                cells@.len() == y * g + g,
        ;
        y = y + 1;
    }
    assert(cells@.len() == g * g) by (nonlinear_arith)
        requires
            cells@.len() == y * g,
            y == g,
    ;
    cells
}

/// Chunks run along a row first: the chunk at position `y * g + x` of a grid
/// of `g` by `g` chunks is in column `x` of row `y`; a grid of `g` by `g`
/// chunks has `g * g` of them, and a grid of size zero or less has none.
pub proof fn law_chunk_order(g: int, x: int, y: int)
    requires
        g > 0,
        0 <= x < g,
        0 <= y < g,
    ensures
        chunk_cell(g, y * g + x) == (x, y),
        0 <= y * g + x < chunk_count(g),
        chunk_count(g) == g * g,
        chunk_count(0) == 0,
        chunk_count(-g) == 0,
{
    lemma_cell_of_index(g, y, x);
    assert(y * g + x < g * g) by (nonlinear_arith)
        requires
            0 <= x < g,
            0 <= y < g,
    ;
    assert(0 <= y * g) by (nonlinear_arith)
        requires
            0 <= y,
            0 < g,
    ;
}

} // verus!
