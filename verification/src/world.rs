//! The simulation state and its operations.

use vstd::prelude::*;
use crate::rules::{
    Cell, Grid, GRID_WIDTH, GRID_HEIGHT, in_bounds, well_formed, cell_at, with_cell, empty_grid,
    filled, live_neighbors, next_cell, next_generation, evolve,
};
use crate::model::{CELL_SIZE, UPDATE_INTERVAL, Mouse, Input, WorldView, pointer_cell};

verus! {

/// The simulation: the grid, the running flag, the time since the last
/// generation and the mode of the edit gesture under way.
pub struct World {
    grid: Vec<Vec<Cell>>,
    running: bool,
    timer: u64,
    draw_mode: Option<Cell>,
}

/// The rows of a vector of vectors, as a grid.
spec fn rows(grid: Vec<Vec<Cell>>) -> Grid {
    Seq::new(grid@.len(), |y: int| grid@[y]@)
}

/// Writes `cell` at the position `(x, y)` of `grid`.
fn write_cell(grid: &mut Vec<Vec<Cell>>, x: usize, y: usize, cell: Cell)
    requires
        well_formed(rows(*old(grid))),
        in_bounds(x as int, y as int),
    ensures
        rows(*final(grid)) == with_cell(rows(*old(grid)), x as int, y as int, cell),
    no_unwind
{
    assert(rows(*grid)[y as int].len() == GRID_WIDTH);
    grid[y][x] = cell;
}

/// A grid of `GRID_HEIGHT` rows of `GRID_WIDTH` empty cells.
fn empty_rows() -> (grid: Vec<Vec<Cell>>)
    ensures
        rows(grid) == empty_grid(),
{
    let mut grid: Vec<Vec<Cell>> = Vec::new();
    let mut y: usize = 0;
    while y < GRID_HEIGHT
        invariant
            y <= GRID_HEIGHT,
            grid@.len() == y,
            forall|j: int| 0 <= j < y ==> (#[trigger] grid@[j])@ == empty_grid()[j],
        decreases GRID_HEIGHT - y,
    {
        let mut row: Vec<Cell> = Vec::new();
        let mut x: usize = 0;
        while x < GRID_WIDTH
            invariant
                x <= GRID_WIDTH,
                row@.len() == x,
                forall|i: int| 0 <= i < x ==> #[trigger] row@[i] == Cell::Empty,
            decreases GRID_WIDTH - x,
        {
            row.push(Cell::Empty);
            x += 1;
        }
        assert(row@ == empty_grid()[y as int]);
        grid.push(row);
        y += 1;
    }
    grid
}

/// Empties every cell of `grid`.
fn clear_cells(grid: &mut Vec<Vec<Cell>>)
    requires
        well_formed(rows(*old(grid))),
    ensures
        rows(*final(grid)) == empty_grid(),
    no_unwind
{
    let mut y: usize = 0;
    while y < GRID_HEIGHT
        invariant
            y <= GRID_HEIGHT,
            well_formed(rows(*grid)),
            forall|j: int| 0 <= j < y ==> (#[trigger] rows(*grid)[j]) == empty_grid()[j],
        decreases GRID_HEIGHT - y,
    {
        let mut x: usize = 0;
        while x < GRID_WIDTH
            invariant
                y < GRID_HEIGHT,
                x <= GRID_WIDTH,
                well_formed(rows(*grid)),
                forall|j: int| 0 <= j < y ==> (#[trigger] rows(*grid)[j]) == empty_grid()[j],
                forall|i: int| 0 <= i < x ==> #[trigger] rows(*grid)[y as int][i] == Cell::Empty,
            decreases GRID_WIDTH - x,
        {
            write_cell(grid, x, y, Cell::Empty);
            x += 1;
        }
        assert(rows(*grid)[y as int] == empty_grid()[y as int]);
        y += 1;
    }
}

/// The grid position under the pixel `(px, py)`, or `None` when the pixel lies
/// outside the grid.
pub fn cell_under(px: i32, py: i32) -> (target: Option<(usize, usize)>)
    ensures
        match target {
            Some((x, y)) => pointer_cell(px as int, py as int) == Some((x as int, y as int)),
            None => pointer_cell(px as int, py as int) is None,
        },
{
    if px < 0 || py < 0 {
        return None;
    }
    let x: usize = (px / CELL_SIZE) as usize;
    let y: usize = (py / CELL_SIZE) as usize;
    if x >= GRID_WIDTH || y >= GRID_HEIGHT {
        None
    } else {
        Some((x, y))
    }
}

impl View for World {
    type V = WorldView;

    closed spec fn view(&self) -> WorldView {
        WorldView {
            cells: rows(self.grid),
            running: self.running,
            timer: self.timer as nat,
            draw_mode: self.draw_mode,
        }
    }
}

impl World {
    /// Holds of every `World`: `use_type_invariant` makes it known.
    #[verifier::type_invariant]
    pub open spec fn inv(&self) -> bool {
        self@.well_formed()
    }

    /// A stopped simulation on an empty grid.
    pub fn new() -> (world: World)
        ensures
            world@ == WorldView::initial(),
    {
        World { grid: empty_rows(), running: false, timer: 0, draw_mode: None }
    }

    /// The cell at `(x, y)`, or `None` outside the grid.
    pub fn get(&self, x: usize, y: usize) -> (cell: Option<Cell>)
        ensures
            cell == cell_at(self@.cells, x as int, y as int),
    {
        proof {
            use_type_invariant(self);
        }
        if x < GRID_WIDTH && y < GRID_HEIGHT {
            Some(self.grid[y][x])
        } else {
            None
        }
    }

    /// Writes `cell` at `(x, y)`; does nothing outside the grid.
    pub fn set(&mut self, x: usize, y: usize, cell: Cell)
        ensures
            final(self)@ == (WorldView {
                cells: with_cell(old(self)@.cells, x as int, y as int, cell),
                ..old(self)@
            }),
    {
        proof {
            use_type_invariant(&*self);
        }
        if y < GRID_HEIGHT && x < GRID_WIDTH {
            write_cell(&mut self.grid, x, y, cell);
        }
    }

    /// Whether `(x, y)` is a grid position that holds an empty cell.
    pub fn is_empty(&self, x: usize, y: usize) -> (empty: bool)
        ensures
            empty == (cell_at(self@.cells, x as int, y as int) == Some(Cell::Empty)),
    {
        match self.get(x, y) {
            Some(Cell::Empty) => true,
            _ => false,
        }
    }

    /// 1 if `(x, y)` is a grid position that holds a filled cell, else 0.
    fn filled_at(&self, x: i32, y: i32) -> (n: u32)
        ensures
            n == filled(self@.cells, x as int, y as int),
    {
        proof {
            use_type_invariant(self);
        }
        if x < 0 || y < 0 || x >= GRID_WIDTH as i32 || y >= GRID_HEIGHT as i32 {
            0
        } else {
            assert(self@.cells[y as int].len() == GRID_WIDTH);
            match self.grid[y as usize][x as usize] {
                Cell::Filled => 1,
                Cell::Empty => 0,
            }
        }
    }

    /// Number of filled cells among the eight positions around `(x, y)`.
    /// Positions outside the grid count as nothing.
    pub fn check_neighbors(&self, x: usize, y: usize) -> (count: u32)
        ensures
            count == live_neighbors(self@.cells, x as int, y as int),
    {
        if x > GRID_WIDTH || y > GRID_HEIGHT {
            return 0;
        }
        let x: i32 = x as i32;
        let y: i32 = y as i32;
        let above: u32 = self.filled_at(x - 1, y - 1) + self.filled_at(x, y - 1) + self.filled_at(
            x + 1,
            y - 1,
        );
        let beside: u32 = self.filled_at(x - 1, y) + self.filled_at(x + 1, y);
        let below: u32 = self.filled_at(x - 1, y + 1) + self.filled_at(x, y + 1) + self.filled_at(
            x + 1,
            y + 1,
        );
        above + beside + below
    }

    /// The rows of the next generation, computed from the current grid.
    fn next_rows(&self) -> (next: Vec<Vec<Cell>>)
        ensures
            rows(next) == next_generation(self@.cells),
    {
        proof {
            use_type_invariant(self);
        }
        let mut next: Vec<Vec<Cell>> = Vec::new();
        let mut y: usize = 0;
        while y < GRID_HEIGHT
            invariant
                self@.well_formed(),
                y <= GRID_HEIGHT,
                next@.len() == y,
                forall|j: int|
                    0 <= j < y ==> (#[trigger] next@[j])@ == next_generation(self@.cells)[j],
            decreases GRID_HEIGHT - y,
        {
            let mut row: Vec<Cell> = Vec::new();
            let mut x: usize = 0;
            while x < GRID_WIDTH
                invariant
                    self@.well_formed(),
                    y < GRID_HEIGHT,
                    x <= GRID_WIDTH,
                    row@.len() == x,
                    forall|i: int|
                        0 <= i < x ==> #[trigger] row@[i] == next_cell(
                            self@.cells[y as int][i],
                            live_neighbors(self@.cells, i, y as int),
                        ),
                decreases GRID_WIDTH - x,
            {
                let cell: Cell = self.grid[y][x];
                let neighbors: u32 = self.check_neighbors(x, y);
                row.push(evolve(cell, neighbors));
                x += 1;
            }
            assert(row@ == next_generation(self@.cells)[y as int]);
            next.push(row);
            y += 1;
        }
        next
    }

    /// Whether the simulation is running.
    pub fn running(&self) -> (running: bool)
        ensures
            running == self@.running,
    {
        self.running
    }

    /// Time accumulated since the last generation, in microseconds.
    pub fn timer(&self) -> (timer: u64)
        ensures
            timer == self@.timer,
    {
        self.timer
    }

    /// The state that the edit gesture under way paints, if there is one.
    pub fn draw_mode(&self) -> (mode: Option<Cell>)
        ensures
            mode == self@.draw_mode,
    {
        self.draw_mode
    }

    /// One generation passes. Every new cell is computed from the grid as it
    /// was before the call.
    pub fn update(&mut self)
        ensures
            final(self)@ == old(self)@.step(),
    {
        proof {
            use_type_invariant(&*self);
        }
        let next = self.next_rows();
        self.grid = next;
    }

    /// Starts a stopped simulation and stops a running one.
    pub fn toggle_running(&mut self)
        ensures
            final(self)@ == old(self)@.toggle_running(),
    {
        proof {
            use_type_invariant(&*self);
        }
        self.running = !self.running;
    }

    /// Empties the grid, stops the simulation and zeroes the timer.
    pub fn reset(&mut self)
        ensures
            final(self)@ == old(self)@.reset(),
    {
        proof {
            use_type_invariant(&*self);
        }
        clear_cells(&mut self.grid);
        self.running = false;
        self.timer = 0;
    }

    /// The key that starts and stops the simulation: toggles when `pressed`.
    pub fn space_pressed(&mut self, pressed: bool)
        ensures
            final(self)@ == if pressed {
                old(self)@.toggle_running()
            } else {
                old(self)@
            },
    {
        if pressed {
            self.toggle_running();
        }
    }

    /// The other two keys: `reset` clears the grid, then `advance` lets one
    /// generation pass, whether the simulation runs or not.
    pub fn handle_keys(&mut self, reset: bool, advance: bool)
        ensures
            final(self)@ == old(self)@.keys(reset, advance),
    {
        if reset {
            self.reset();
        }
        if advance {
            self.update();
        }
    }

    /// One frame of the edit gesture. A press over a grid cell starts a
    /// gesture that paints the opposite of that cell; while the button is
    /// held, the cell under the pointer takes the gesture's mode; a release
    /// ends the gesture. A pointer outside the grid samples and paints nothing.
    pub fn left_click(&mut self, mouse: Mouse)
        ensures
            final(self)@ == old(self)@.click(mouse),
    {
        proof {
            use_type_invariant(&*self);
        }
        match cell_under(mouse.x, mouse.y) {
            Some(target) => {
                let x: usize = target.0;
                let y: usize = target.1;
                if mouse.pressed {
                    self.draw_mode = if self.is_empty(x, y) {
                        Some(Cell::Filled)
                    } else {
                        Some(Cell::Empty)
                    };
                }
                if mouse.down {
                    match self.draw_mode {
                        Some(mode) => {
                            self.set(x, y, mode);
                        },
                        None => {},
                    }
                }
            },
            None => {},
        }
        if mouse.released {
            self.draw_mode = None;
        }
    }

    /// A frame of `frame_time` microseconds passes. A stopped simulation
    /// ignores it. A running one lets exactly one generation pass once the
    /// accumulated time has reached `UPDATE_INTERVAL`, and starts accumulating
    /// again from zero.
    pub fn tick(&mut self, frame_time: u64)
        ensures
            final(self)@ == old(self)@.tick(frame_time as nat),
    {
        proof {
            use_type_invariant(&*self);
        }
        if self.running {
            if frame_time >= UPDATE_INTERVAL - self.timer {
                self.update();
                self.timer = 0;
            } else {
                self.timer = self.timer + frame_time;
            }
        }
    }

    /// One whole frame, in fixed order: the toggle key, the pointer, the
    /// other keys, then the passing of time.
    pub fn frame(&mut self, input: Input)
        ensures
            final(self)@ == old(self)@.frame(input),
    {
        self.space_pressed(input.toggle);
        self.left_click(input.mouse);
        self.handle_keys(input.reset, input.advance);
        self.tick(input.frame_time);
    }
}

} // verus!
