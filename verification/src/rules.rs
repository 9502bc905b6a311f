//! The mathematical model: grids as sequences of rows, and the transition rule.

use vstd::prelude::*;

verus! {

/// Number of columns of the grid.
pub const GRID_WIDTH: usize = 80;

/// Number of rows of the grid.
pub const GRID_HEIGHT: usize = 60;

/// State of one grid position.
#[derive(Clone, Copy, PartialEq, Eq, Debug, Structural)]
pub enum Cell {
    Empty,
    Filled,
}

/// A grid is a sequence of rows; `g[y][x]` is the cell in column `x` of row `y`.
pub type Grid = Seq<Seq<Cell>>;

/// `(x, y)` names a position of the grid.
pub open spec fn in_bounds(x: int, y: int) -> bool {
    0 <= x < GRID_WIDTH && 0 <= y < GRID_HEIGHT
}

/// The grid has exactly `GRID_HEIGHT` rows of `GRID_WIDTH` cells each.
pub open spec fn well_formed(g: Grid) -> bool {
    &&& g.len() == GRID_HEIGHT
    &&& forall|y: int| 0 <= y < GRID_HEIGHT ==> (#[trigger] g[y]).len() == GRID_WIDTH
}

/// The cell at `(x, y)`, or `None` outside the grid.
pub open spec fn cell_at(g: Grid, x: int, y: int) -> Option<Cell> {
    if in_bounds(x, y) {
        Some(g[y][x])
    } else {
        None
    }
}

/// The grid with `cell` written at `(x, y)`; unchanged when `(x, y)` is outside.
pub open spec fn with_cell(g: Grid, x: int, y: int, cell: Cell) -> Grid {
    if in_bounds(x, y) {
        g.update(y, g[y].update(x, cell))
    } else {
        g
    }
}

/// The grid whose cells are all `Empty`.
pub open spec fn empty_grid() -> Grid {
    Seq::new(GRID_HEIGHT as nat, |y: int| Seq::new(GRID_WIDTH as nat, |x: int| Cell::Empty))
}

/// 1 if `(x, y)` is a position of the grid that holds a `Filled` cell, else 0.
/// Positions outside the grid count as nothing: the grid does not wrap.
pub open spec fn filled(g: Grid, x: int, y: int) -> nat {
    if cell_at(g, x, y) == Some(Cell::Filled) {
        1
    } else {
        0
    }
}

/// Number of `Filled` cells among the eight positions around `(x, y)`.
pub open spec fn live_neighbors(g: Grid, x: int, y: int) -> nat {
    filled(g, x + 1, y) + filled(g, x - 1, y) + filled(g, x, y + 1) + filled(g, x, y - 1)
        + filled(g, x + 1, y + 1) + filled(g, x + 1, y - 1) + filled(g, x - 1, y + 1)
        + filled(g, x - 1, y - 1)
}

/// The rule for one cell: birth on exactly three live neighbours, survival on
/// two or three, death otherwise.
pub open spec fn next_cell(cell: Cell, neighbors: nat) -> Cell {
    match cell {
        Cell::Empty => if neighbors == 3 {
            Cell::Filled
        } else {
            Cell::Empty
        },
        Cell::Filled => if neighbors < 2 || neighbors > 3 {
            Cell::Empty
        } else {
            Cell::Filled
        },
    }
}

/// The grid one generation later. Every cell is computed from `g` alone.
pub open spec fn next_generation(g: Grid) -> Grid {
    Seq::new(
        GRID_HEIGHT as nat,
        |y: int|
            Seq::new(GRID_WIDTH as nat, |x: int| next_cell(g[y][x], live_neighbors(g, x, y))),
    )
}

/// The grid `n` generations later.
pub open spec fn generations(g: Grid, n: nat) -> Grid
    decreases n,
{
    if n == 0 {
        g
    } else {
        next_generation(generations(g, (n - 1) as nat))
    }
}

/// The rule for one cell, computed.
pub fn evolve(cell: Cell, neighbors: u32) -> (next: Cell)
    ensures
        next == next_cell(cell, neighbors as nat),
{
    match cell {
        Cell::Empty => {
            if neighbors == 3 {
                Cell::Filled
            } else {
                Cell::Empty
            }
        },
        Cell::Filled => {
            if neighbors < 2 || neighbors > 3 {
                Cell::Empty
            } else {
                Cell::Filled
            }
        },
    }
}

} // verus!
