//! What to put on screen, in whole pixels: the squares of the filled cells,
//! the lines between the cells, and the window that holds them.

use vstd::prelude::*;
use crate::rules::{Cell, Grid, GRID_WIDTH, GRID_HEIGHT};
use crate::model::CELL_SIZE;
use crate::world::World;

verus! {

/// An axis-parallel rectangle: top left corner, width and height.
#[derive(Clone, Copy, PartialEq, Eq, Debug, Structural)]
pub struct Rect {
    pub x: i32,
    pub y: i32,
    pub w: i32,
    pub h: i32,
}

/// A line segment from `(x1, y1)` to `(x2, y2)`.
#[derive(Clone, Copy, PartialEq, Eq, Debug, Structural)]
pub struct Line {
    pub x1: i32,
    pub y1: i32,
    pub x2: i32,
    pub y2: i32,
}

/// The window: its title, whether it scales on dense displays, whether the
/// user may resize it, and its size in pixels.
#[derive(Clone, Copy, Debug)]
pub struct WindowConf {
    pub title: &'static str,
    pub high_dpi: bool,
    pub resizable: bool,
    pub width: i32,
    pub height: i32,
}

/// The square that the cell at `(x, y)` covers on screen.
pub open spec fn cell_rect(x: int, y: int) -> Rect {
    Rect { x: (x * CELL_SIZE) as i32, y: (y * CELL_SIZE) as i32, w: CELL_SIZE, h: CELL_SIZE }
}

/// The squares of the filled cells among the first `n` grid positions, taken
/// row by row from the top left.
pub open spec fn filled_rects(g: Grid, n: nat) -> Seq<Rect>
    decreases n,
{
    if n == 0 {
        Seq::empty()
    } else {
        let x = (n - 1) % (GRID_WIDTH as int);
        let y = (n - 1) / (GRID_WIDTH as int);
        let before = filled_rects(g, (n - 1) as nat);
        if g[y][x] == Cell::Filled {
            before.push(cell_rect(x, y))
        } else {
            before
        }
    }
}

/// The vertical line at the left edge of column `x`.
pub open spec fn vertical_line(x: int) -> Line {
    Line {
        x1: (x * CELL_SIZE) as i32,
        y1: 0,
        x2: (x * CELL_SIZE) as i32,
        y2: (GRID_HEIGHT * CELL_SIZE) as i32,
    }
}

/// The horizontal line at the top edge of row `y`.
pub open spec fn horizontal_line(y: int) -> Line {
    Line {
        x1: 0,
        y1: (y * CELL_SIZE) as i32,
        x2: (GRID_WIDTH * CELL_SIZE) as i32,
        y2: (y * CELL_SIZE) as i32,
    }
}

/// The lines of the grid: the `GRID_WIDTH + 1` vertical ones from left to
/// right, then the `GRID_HEIGHT + 1` horizontal ones from top to bottom.
pub open spec fn grid_lines() -> Seq<Line> {
    Seq::new((GRID_WIDTH + 1) as nat, |x: int| vertical_line(x)) + Seq::new(
        (GRID_HEIGHT + 1) as nat,
        |y: int| horizontal_line(y),
    )
}

/// A window that holds the grid exactly and keeps its size.
pub fn window_conf() -> (conf: WindowConf)
    ensures
        conf.title@ == "Game of Life"@,
        conf.high_dpi,
        !conf.resizable,
        conf.width == GRID_WIDTH * CELL_SIZE,
        conf.height == GRID_HEIGHT * CELL_SIZE,
{
    WindowConf {
        title: "Game of Life",
        high_dpi: true,
        resizable: false,
        width: GRID_WIDTH as i32 * CELL_SIZE,
        height: GRID_HEIGHT as i32 * CELL_SIZE,
    }
}

impl World {
    /// The squares to fill: one for each filled cell, row by row.
    pub fn draw(&self) -> (rects: Vec<Rect>)
        ensures
            rects@ == filled_rects(self@.cells, (GRID_WIDTH * GRID_HEIGHT) as nat),
    {
        let mut rects: Vec<Rect> = Vec::new();
        let mut y: usize = 0;
        while y < GRID_HEIGHT
            invariant
                y <= GRID_HEIGHT,
                rects@ == filled_rects(self@.cells, (y * GRID_WIDTH) as nat),
            decreases GRID_HEIGHT - y,
        {
            let mut x: usize = 0;
            while x < GRID_WIDTH
                invariant
                    y < GRID_HEIGHT,
                    x <= GRID_WIDTH,
                    rects@ == filled_rects(self@.cells, (y * GRID_WIDTH + x) as nat),
                decreases GRID_WIDTH - x,
            {
                match self.get(x, y) {
                    Some(Cell::Filled) => {
                        rects.push(
                            Rect {
                                x: x as i32 * CELL_SIZE,
                                y: y as i32 * CELL_SIZE,
                                w: CELL_SIZE,
                                h: CELL_SIZE,
                            },
                        );
                    },
                    _ => {},
                }
                x += 1;
            }
            y += 1;
        }
        rects
    }

    /// The lines to draw between the cells.
    pub fn draw_grid_lines(&self) -> (lines: Vec<Line>)
        ensures
            lines@ == grid_lines(),
    {
        let width: i32 = GRID_WIDTH as i32 * CELL_SIZE;
        let height: i32 = GRID_HEIGHT as i32 * CELL_SIZE;
        let mut lines: Vec<Line> = Vec::new();
        let mut x: usize = 0;
        while x <= GRID_WIDTH
            invariant
                x <= GRID_WIDTH + 1,
                width == GRID_WIDTH * CELL_SIZE,
                height == GRID_HEIGHT * CELL_SIZE,
                lines@.len() == x,
                forall|i: int| 0 <= i < x ==> #[trigger] lines@[i] == vertical_line(i),
            decreases GRID_WIDTH + 1 - x,
        {
            let x_pos: i32 = x as i32 * CELL_SIZE;
            lines.push(Line { x1: x_pos, y1: 0, x2: x_pos, y2: height });
            x += 1;
        }
        let mut y: usize = 0;
        while y <= GRID_HEIGHT
            invariant
                y <= GRID_HEIGHT + 1,
                width == GRID_WIDTH * CELL_SIZE,
                height == GRID_HEIGHT * CELL_SIZE,
                lines@.len() == GRID_WIDTH + 1 + y,
                forall|i: int| 0 <= i <= GRID_WIDTH ==> #[trigger] lines@[i] == vertical_line(i),
                forall|i: int|
                    GRID_WIDTH < i <= GRID_WIDTH + y ==> #[trigger] lines@[i] == horizontal_line(
                        i - GRID_WIDTH - 1,
                    ),
            decreases GRID_HEIGHT + 1 - y,
        {
            let y_pos: i32 = y as i32 * CELL_SIZE;
            lines.push(Line { x1: 0, y1: y_pos, x2: width, y2: y_pos });
            y += 1;
        }
        lines
    }
}

} // verus!
